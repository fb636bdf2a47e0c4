//! Google Workspace directory operations: domain aliases and privileges.

use vstd::prelude::*;
use vstd::string::StringSliceAdditionalSpecFns;
use crate::calls::{
    alt_text, encoded_path, joined, optional, param, push_encoded, push_optional, push_param,
    text, with_query, Alt, ApiCall,
};
use crate::executor::{Client, Method};
use crate::link::views;
use crate::text::push_char;

verus! {

/// The parameters every directory call takes, around the one parameter
/// (`extra`) that some calls add after `key`.
pub open spec fn directory_params(
    alt: Alt,
    callback: Seq<char>,
    fields: Seq<char>,
    key: Seq<char>,
    extra: Seq<Seq<char>>,
    quota_user: Seq<char>,
    upload_protocol: Seq<char>,
    upload_type: Seq<char>,
) -> Seq<Seq<char>> {
    seq![param("alt"@, alt_text(alt))] + optional("callback"@, callback) + optional("fields"@, fields)
        + optional("key"@, key) + extra + optional("quota_user"@, quota_user) + optional(
        "upload_protocol"@,
        upload_protocol,
    ) + optional("upload_type"@, upload_type)
}

/// The path of a customer's domain aliases.
pub open spec fn aliases_path(customer: &str) -> Seq<char> {
    "/admin/directory/v1/customer/"@ + encoded_path(customer.spec_bytes()) + "/domainaliases"@
}

/// The path of one domain alias of a customer.
pub open spec fn alias_path(customer: &str, name: &str) -> Seq<char> {
    aliases_path(customer) + seq!['/'] + encoded_path(name.spec_bytes())
}

/// The path of a customer's privileges.
pub open spec fn privileges_path(customer: &str) -> Seq<char> {
    "/admin/directory/v1/customer/"@ + encoded_path(customer.spec_bytes()) + "/roles/ALL/privileges"@
}

fn directory_query(
    prefix: String,
    alt: Alt,
    callback: &str,
    fields: &str,
    key: &str,
    extra: Option<(&str, &str)>,
    quota_user: &str,
    upload_protocol: &str,
    upload_type: &str,
) -> (r: String)
    ensures
        r@ == prefix@ + seq!['?'] + joined(
            directory_params(
                alt,
                callback@,
                fields@,
                key@,
                match extra {
                    Some(p) => optional(p.0@, p.1@),
                    None => Seq::empty(),
                },
                quota_user@,
                upload_protocol@,
                upload_type@,
            ),
        ),
{
    let mut args: Vec<String> = Vec::new();
    push_param(&mut args, "alt", alt.as_str());
    assert(views(args@) =~= seq![param("alt"@, alt_text(alt))]);
    push_optional(&mut args, "callback", callback);
    push_optional(&mut args, "fields", fields);
    push_optional(&mut args, "key", key);
    let ghost before_extra = views(args@);
    if let Some((name, value)) = extra {
        push_optional(&mut args, name, value);
    } else {
        assert(views(args@) =~= before_extra + Seq::empty());
    }
    push_optional(&mut args, "quota_user", quota_user);
    push_optional(&mut args, "upload_protocol", upload_protocol);
    push_optional(&mut args, "upload_type", upload_type);
    with_query(prefix, &args)
}

fn aliases_prefix(customer: &str) -> (r: String)
    ensures
        r@ == aliases_path(customer),
{
    let mut r = text("/admin/directory/v1/customer/");
    push_encoded(&mut r, customer);
    r.append("/domainaliases");
    r
}

fn alias_prefix(customer: &str, name: &str) -> (r: String)
    ensures
        r@ == alias_path(customer, name),
{
    let mut r = aliases_prefix(customer);
    push_char(&mut r, '/');
    push_encoded(&mut r, name);
    r
}

/// The domain aliases of a customer's account.
pub struct DomainAliases {
    pub client: Client,
}

impl DomainAliases {
    pub fn new(client: Client) -> (r: Self)
        ensures
            r.client == client,
    {
        DomainAliases { client }
    }

    /// Lists the domain aliases of the customer, optionally only those of
    /// one parent domain.
    pub fn directory_list(
        &self,
        alt: Alt,
        callback: &str,
        fields: &str,
        key: &str,
        quota_user: &str,
        upload_protocol: &str,
        upload_type: &str,
        customer: &str,
        parent_domain_name: &str,
    ) -> (r: ApiCall)
        ensures
            r.method == Method::Get,
            r.body is None,
            r.path@ == aliases_path(customer) + seq!['?'] + joined(
                directory_params(
                    alt,
                    callback@,
                    fields@,
                    key@,
                    optional("parent_domain_name"@, parent_domain_name@),
                    quota_user@,
                    upload_protocol@,
                    upload_type@,
                ),
            ),
    {
        let path = directory_query(
            aliases_prefix(customer),
            alt,
            callback,
            fields,
            key,
            Some(("parent_domain_name", parent_domain_name)),
            quota_user,
            upload_protocol,
            upload_type,
        );
        ApiCall { method: Method::Get, path, body: None }
    }

    /// Inserts a domain alias of the customer; `body` is the alias, as JSON.
    pub fn directory_insert(
        &self,
        alt: Alt,
        callback: &str,
        fields: &str,
        key: &str,
        quota_user: &str,
        upload_protocol: &str,
        upload_type: &str,
        customer: &str,
        body: Vec<u8>,
    ) -> (r: ApiCall)
        ensures
            r.method == Method::Post,
            r.body == Some(body),
            r.path@ == aliases_path(customer) + seq!['?'] + joined(
                directory_params(
                    alt,
                    callback@,
                    fields@,
                    key@,
                    Seq::empty(),
                    quota_user@,
                    upload_protocol@,
                    upload_type@,
                ),
            ),
    {
        let path = directory_query(
            aliases_prefix(customer),
            alt,
            callback,
            fields,
            key,
            None,
            quota_user,
            upload_protocol,
            upload_type,
        );
        ApiCall { method: Method::Post, path, body: Some(body) }
    }

    /// Retrieves one domain alias of the customer.
    pub fn directory_get(
        &self,
        alt: Alt,
        callback: &str,
        fields: &str,
        key: &str,
        quota_user: &str,
        upload_protocol: &str,
        upload_type: &str,
        customer: &str,
        domain_alias_name: &str,
    ) -> (r: ApiCall)
        ensures
            r.method == Method::Get,
            r.body is None,
            r.path@ == alias_path(customer, domain_alias_name) + seq!['?'] + joined(
                directory_params(
                    alt,
                    callback@,
                    fields@,
                    key@,
                    Seq::empty(),
                    quota_user@,
                    upload_protocol@,
                    upload_type@,
                ),
            ),
    {
        let path = directory_query(
            alias_prefix(customer, domain_alias_name),
            alt,
            callback,
            fields,
            key,
            None,
            quota_user,
            upload_protocol,
            upload_type,
        );
        ApiCall { method: Method::Get, path, body: None }
    }

    /// Deletes one domain alias of the customer.
    pub fn directory_delete(
        &self,
        alt: Alt,
        callback: &str,
        fields: &str,
        key: &str,
        quota_user: &str,
        upload_protocol: &str,
        upload_type: &str,
        customer: &str,
        domain_alias_name: &str,
    ) -> (r: ApiCall)
        ensures
            r.method == Method::Delete,
            r.body is None,
            r.path@ == alias_path(customer, domain_alias_name) + seq!['?'] + joined(
                directory_params(
                    alt,
                    callback@,
                    fields@,
                    key@,
                    Seq::empty(),
                    quota_user@,
                    upload_protocol@,
                    upload_type@,
                ),
            ),
    {
        let path = directory_query(
            alias_prefix(customer, domain_alias_name),
            alt,
            callback,
            fields,
            key,
            None,
            quota_user,
            upload_protocol,
            upload_type,
        );
        ApiCall { method: Method::Delete, path, body: None }
    }
}

/// The privileges that roles of a customer's account can hold.
pub struct Privileges {
    pub client: Client,
}

impl Privileges {
    pub fn new(client: Client) -> (r: Self)
        ensures
            r.client == client,
    {
        Privileges { client }
    }

    /// Lists all privileges of the customer.
    pub fn directory_list(
        &self,
        alt: Alt,
        callback: &str,
        fields: &str,
        key: &str,
        quota_user: &str,
        upload_protocol: &str,
        upload_type: &str,
        customer: &str,
    ) -> (r: ApiCall)
        ensures
            r.method == Method::Get,
            r.body is None,
            r.path@ == privileges_path(customer) + seq!['?'] + joined(
                directory_params(
                    alt,
                    callback@,
                    fields@,
                    key@,
                    Seq::empty(),
                    quota_user@,
                    upload_protocol@,
                    upload_type@,
                ),
            ),
    {
        let mut prefix = text("/admin/directory/v1/customer/");
        push_encoded(&mut prefix, customer);
        prefix.append("/roles/ALL/privileges");
        let path = directory_query(
            prefix,
            alt,
            callback,
            fields,
            key,
            None,
            quota_user,
            upload_protocol,
            upload_type,
        );
        ApiCall { method: Method::Get, path, body: None }
    }
}

} // verus!
