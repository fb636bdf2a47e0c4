//! Google Drive shared-drive operations.

use vstd::prelude::*;
use vstd::string::StringSliceAdditionalSpecFns;
use crate::calls::{
    alt_text, encoded_path, flag, joined, optional, param, positive, push_encoded, push_flag,
    push_optional, push_param, push_positive, text, with_query, Alt, ApiCall,
};
use crate::executor::{Client, Method};
use crate::link::views;

verus! {

/// The leading parameters of every shared-drive call.
pub open spec fn drive_head(alt: Alt, fields: Seq<char>, key: Seq<char>) -> Seq<Seq<char>> {
    seq![param("alt"@, alt_text(alt))] + optional("fields"@, fields) + optional("key"@, key)
}

/// The parameters of a call on one shared drive.
pub open spec fn one_drive_params(
    alt: Alt,
    fields: Seq<char>,
    key: Seq<char>,
    quota_user: Seq<char>,
    admin: Seq<Seq<char>>,
    user_ip: Seq<char>,
) -> Seq<Seq<char>> {
    drive_head(alt, fields, key) + optional("quota_user"@, quota_user) + admin + optional("user_ip"@, user_ip)
}

/// The path of one shared drive.
pub open spec fn drive_path(drive_id: &str) -> Seq<char> {
    "/drives/"@ + encoded_path(drive_id.spec_bytes())
}

fn head_args(alt: Alt, fields: &str, key: &str) -> (r: Vec<String>)
    ensures
        views(r@) == drive_head(alt, fields@, key@),
{
    let mut args: Vec<String> = Vec::new();
    push_param(&mut args, "alt", alt.as_str());
    assert(views(args@) =~= seq![param("alt"@, alt_text(alt))]);
    push_optional(&mut args, "fields", fields);
    push_optional(&mut args, "key", key);
    args
}

fn one_drive_query(
    prefix: String,
    alt: Alt,
    fields: &str,
    key: &str,
    quota_user: &str,
    admin: Option<bool>,
    user_ip: &str,
) -> (r: String)
    ensures
        r@ == prefix@ + seq!['?'] + joined(
            one_drive_params(
                alt,
                fields@,
                key@,
                quota_user@,
                match admin {
                    Some(on) => flag("use_domain_admin_access"@, on),
                    None => Seq::empty(),
                },
                user_ip@,
            ),
        ),
{
    let mut args = head_args(alt, fields, key);
    push_optional(&mut args, "quota_user", quota_user);
    let ghost before = views(args@);
    match admin {
        Some(on) => push_flag(&mut args, "use_domain_admin_access", on),
        None => {
            assert(views(args@) =~= before + Seq::empty());
        },
    }
    push_optional(&mut args, "user_ip", user_ip);
    with_query(prefix, &args)
}

fn drive_prefix(drive_id: &str) -> (r: String)
    ensures
        r@ == drive_path(drive_id),
{
    let mut r = text("/drives/");
    push_encoded(&mut r, drive_id);
    r
}

/// The shared drives of a user.
pub struct Drives {
    pub client: Client,
}

impl Drives {
    pub fn new(client: Client) -> (r: Self)
        ensures
            r.client == client,
    {
        Drives { client }
    }

    /// Lists one page of the user's shared drives.
    pub fn drive_list(
        &self,
        alt: Alt,
        fields: &str,
        key: &str,
        quota_user: &str,
        user_ip: &str,
        page_size: i64,
        page_token: &str,
        q: &str,
        use_domain_admin_access: bool,
    ) -> (r: ApiCall)
        ensures
            r.method == Method::Get,
            r.body is None,
            r.path@ == "/drives"@ + seq!['?'] + joined(
                drive_head(alt, fields@, key@) + positive("page_size"@, page_size) + optional(
                    "page_token"@,
                    page_token@,
                ) + optional("q"@, q@) + optional("quota_user"@, quota_user@) + flag(
                    "use_domain_admin_access"@,
                    use_domain_admin_access,
                ) + optional("user_ip"@, user_ip@),
            ),
    {
        let mut args = head_args(alt, fields, key);
        push_positive(&mut args, "page_size", page_size);
        push_optional(&mut args, "page_token", page_token);
        push_optional(&mut args, "q", q);
        push_optional(&mut args, "quota_user", quota_user);
        push_flag(&mut args, "use_domain_admin_access", use_domain_admin_access);
        push_optional(&mut args, "user_ip", user_ip);
        ApiCall { method: Method::Get, path: with_query(text("/drives"), &args), body: None }
    }

    /// The first page of all the user's shared drives; the following pages
    /// are fetched with a [`crate::paginate::TokenPager`] on this path.
    pub fn drive_list_drives(
        &self,
        alt: Alt,
        fields: &str,
        key: &str,
        quota_user: &str,
        user_ip: &str,
        q: &str,
        use_domain_admin_access: bool,
    ) -> (r: ApiCall)
        ensures
            r.method == Method::Get,
            r.body is None,
            r.path@ == "/drives"@ + seq!['?'] + joined(
                drive_head(alt, fields@, key@) + optional("q"@, q@) + optional("quota_user"@, quota_user@)
                    + flag("use_domain_admin_access"@, use_domain_admin_access) + optional(
                    "user_ip"@,
                    user_ip@,
                ),
            ),
    {
        let mut args = head_args(alt, fields, key);
        push_optional(&mut args, "q", q);
        push_optional(&mut args, "quota_user", quota_user);
        push_flag(&mut args, "use_domain_admin_access", use_domain_admin_access);
        push_optional(&mut args, "user_ip", user_ip);
        ApiCall { method: Method::Get, path: with_query(text("/drives"), &args), body: None }
    }

    /// Creates a shared drive; `body` is the drive, as JSON.
    pub fn drive_create(
        &self,
        alt: Alt,
        fields: &str,
        key: &str,
        quota_user: &str,
        user_ip: &str,
        request_id: &str,
        body: Vec<u8>,
    ) -> (r: ApiCall)
        ensures
            r.method == Method::Post,
            r.body == Some(body),
            r.path@ == "/drives"@ + seq!['?'] + joined(
                drive_head(alt, fields@, key@) + optional("quota_user"@, quota_user@) + optional(
                    "request_id"@,
                    request_id@,
                ) + optional("user_ip"@, user_ip@),
            ),
    {
        let mut args = head_args(alt, fields, key);
        push_optional(&mut args, "quota_user", quota_user);
        push_optional(&mut args, "request_id", request_id);
        push_optional(&mut args, "user_ip", user_ip);
        ApiCall { method: Method::Post, path: with_query(text("/drives"), &args), body: Some(body) }
    }

    /// Retrieves a shared drive.
    pub fn drive_get(
        &self,
        alt: Alt,
        fields: &str,
        key: &str,
        quota_user: &str,
        user_ip: &str,
        drive_id: &str,
        use_domain_admin_access: bool,
    ) -> (r: ApiCall)
        ensures
            r.method == Method::Get,
            r.body is None,
            r.path@ == drive_path(drive_id) + seq!['?'] + joined(
                one_drive_params(
                    alt,
                    fields@,
                    key@,
                    quota_user@,
                    flag("use_domain_admin_access"@, use_domain_admin_access),
                    user_ip@,
                ),
            ),
    {
        let path = one_drive_query(
            drive_prefix(drive_id),
            alt,
            fields,
            key,
            quota_user,
            Some(use_domain_admin_access),
            user_ip,
        );
        ApiCall { method: Method::Get, path, body: None }
    }

    /// Deletes a shared drive.
    pub fn drive_delete(
        &self,
        alt: Alt,
        fields: &str,
        key: &str,
        quota_user: &str,
        user_ip: &str,
        drive_id: &str,
    ) -> (r: ApiCall)
        ensures
            r.method == Method::Delete,
            r.body is None,
            r.path@ == drive_path(drive_id) + seq!['?'] + joined(
                one_drive_params(alt, fields@, key@, quota_user@, Seq::empty(), user_ip@),
            ),
    {
        let path = one_drive_query(drive_prefix(drive_id), alt, fields, key, quota_user, None, user_ip);
        ApiCall { method: Method::Delete, path, body: None }
    }

    /// Updates a shared drive; `body` is the new drive, as JSON.
    pub fn drive_update(
        &self,
        alt: Alt,
        fields: &str,
        key: &str,
        quota_user: &str,
        user_ip: &str,
        drive_id: &str,
        use_domain_admin_access: bool,
        body: Vec<u8>,
    ) -> (r: ApiCall)
        ensures
            r.method == Method::Patch,
            r.body == Some(body),
            r.path@ == drive_path(drive_id) + seq!['?'] + joined(
                one_drive_params(
                    alt,
                    fields@,
                    key@,
                    quota_user@,
                    flag("use_domain_admin_access"@, use_domain_admin_access),
                    user_ip@,
                ),
            ),
    {
        let path = one_drive_query(
            drive_prefix(drive_id),
            alt,
            fields,
            key,
            quota_user,
            Some(use_domain_admin_access),
            user_ip,
        );
        ApiCall { method: Method::Patch, path, body: Some(body) }
    }

    /// Hides a shared drive from the default view.
    pub fn drive_hide(
        &self,
        alt: Alt,
        fields: &str,
        key: &str,
        quota_user: &str,
        user_ip: &str,
        drive_id: &str,
    ) -> (r: ApiCall)
        ensures
            r.method == Method::Post,
            r.body is None,
            r.path@ == drive_path(drive_id) + "/hide"@ + seq!['?'] + joined(
                one_drive_params(alt, fields@, key@, quota_user@, Seq::empty(), user_ip@),
            ),
    {
        let mut prefix = drive_prefix(drive_id);
        prefix.append("/hide");
        let path = one_drive_query(prefix, alt, fields, key, quota_user, None, user_ip);
        ApiCall { method: Method::Post, path, body: None }
    }

    /// Restores a shared drive to the default view.
    pub fn drive_unhide(
        &self,
        alt: Alt,
        fields: &str,
        key: &str,
        quota_user: &str,
        user_ip: &str,
        drive_id: &str,
    ) -> (r: ApiCall)
        ensures
            r.method == Method::Post,
            r.body is None,
            r.path@ == drive_path(drive_id) + "/unhide"@ + seq!['?'] + joined(
                one_drive_params(alt, fields@, key@, quota_user@, Seq::empty(), user_ip@),
            ),
    {
        let mut prefix = drive_prefix(drive_id);
        prefix.append("/unhide");
        let path = one_drive_query(prefix, alt, fields, key, quota_user, None, user_ip);
        ApiCall { method: Method::Post, path, body: None }
    }
}

} // verus!
