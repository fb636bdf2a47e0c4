use api_client::admin::{DomainAliases, Privileges};
use api_client::cache::ResponseCache;
use api_client::calls::{push_encoded, Alt};
use api_client::drive::Drives;
use api_client::executor::{Client, Method};
use api_client::ramp::{Card, User};

fn client() -> Client {
    Client::custom("https://example.com".to_string(), "agent".to_string(), None, ResponseCache::disabled())
}

#[test]
fn path_segments_are_percent_encoded() {
    let mut s = String::new();
    push_encoded(&mut s, "a b#c?d/é");
    assert_eq!(s, "a%20b%23c%3Fd/%C3%A9");
}

#[test]
fn drive_list_query() {
    let d = Drives::new(client());
    let call = d.drive_list(Alt::Json, "", "k", "", "", 10, "tok", "", true);
    assert_eq!(call.method, Method::Get);
    assert_eq!(call.path, "/drives?alt=json&key=k&page_size=10&page_token=tok&use_domain_admin_access=true");
    let call = d.drive_list(Alt::Media, "", "", "", "", 0, "", "name", false);
    assert_eq!(call.path, "/drives?alt=media&q=name");
}

#[test]
fn drive_calls_on_one_drive() {
    let d = Drives::new(client());
    assert_eq!(d.drive_get(Alt::Json, "f", "", "", "1.2.3.4", "my drive", false).path, "/drives/my%20drive?alt=json&fields=f&user_ip=1.2.3.4");
    let del = d.drive_delete(Alt::Json, "", "", "q", "", "x");
    assert_eq!((del.method, del.path.as_str()), (Method::Delete, "/drives/x?alt=json&quota_user=q"));
    let up = d.drive_update(Alt::Json, "", "", "", "", "x", true, b"{}".to_vec());
    assert_eq!(up.method, Method::Patch);
    assert_eq!(up.path, "/drives/x?alt=json&use_domain_admin_access=true");
    assert_eq!(up.body, Some(b"{}".to_vec()));
    assert_eq!(d.drive_hide(Alt::Json, "", "", "", "", "x").path, "/drives/x/hide?alt=json");
    assert_eq!(d.drive_unhide(Alt::Proto, "", "", "", "", "x").path, "/drives/x/unhide?alt=proto");
    let c = d.drive_create(Alt::Json, "", "", "", "", "req-1", b"{}".to_vec());
    assert_eq!((c.method, c.path.as_str()), (Method::Post, "/drives?alt=json&request_id=req-1"));
    assert_eq!(d.drive_list_drives(Alt::Json, "", "", "", "", "", false).path, "/drives?alt=json");
}

#[test]
fn directory_calls() {
    let a = DomainAliases::new(client());
    let call = a.directory_list(Alt::Json, "cb", "", "", "", "", "", "my_customer", "example.org");
    assert_eq!(call.path, "/admin/directory/v1/customer/my_customer/domainaliases?alt=json&callback=cb&parent_domain_name=example.org");
    let call = a.directory_get(Alt::Json, "", "", "", "", "", "media", "c", "alias one");
    assert_eq!(call.path, "/admin/directory/v1/customer/c/domainaliases/alias%20one?alt=json&upload_type=media");
    assert_eq!(a.directory_delete(Alt::Json, "", "", "", "", "", "", "c", "a").method, Method::Delete);
    let ins = a.directory_insert(Alt::Json, "", "", "", "", "", "", "c", b"{}".to_vec());
    assert_eq!((ins.method, ins.path.as_str()), (Method::Post, "/admin/directory/v1/customer/c/domainaliases?alt=json"));
    let p = Privileges::new(client());
    assert_eq!(
        p.directory_list(Alt::Json, "", "", "", "", "", "", "c").path,
        "/admin/directory/v1/customer/c/roles/ALL/privileges?alt=json"
    );
}

#[test]
fn ramp_calls() {
    let c = Card::new(client());
    assert_eq!(c.get_cards("auth", "", 1000, "u1", "").path, "/cards?page_size=1000&user_id=u1");
    assert_eq!(c.get_cards("auth", "s", 2, "", "p").path, "/cards?card_program_id=p&page_size=2&start=s");
    assert_eq!(c.get_card("auth").path, "/cards/<id>");
    assert_eq!(c.post_resources_cards_suspension(b"{}".to_vec()).path, "/cards/<id>/deferred/suspension");
    let u = User::new(client());
    assert_eq!(u.get_user("auth", "", 10, "d", "l").path, "/users?department_id=d&location_id=l&page_size=10");
    assert_eq!(u.delete_users().method, Method::Delete);
    assert_eq!(u.get_users_deferred_status().path, "/users/deferred/status/<id>");
}
