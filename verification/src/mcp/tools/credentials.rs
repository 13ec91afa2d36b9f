//! Credentials toolset: reads (secrets never leave the gateway) plus
//! create/update/delete.

use vstd::prelude::*;
use crate::json::{key_count, lemma_entries_algebra, str_views, Json, JsonValue};
use super::common::{
    create_call, create_call_spec, delete_call, delete_call_spec, get_by_id_call, get_call_spec,
    list_call, list_call_spec, opt_field, opt_str_json, opt_string, resource_id, update_call,
    update_call_spec, Body, DeleteParams, GetByIdParams, ListParams, ToolCall,
};
use crate::body::lemma_opt_field_algebra;

verus! {

/// Row keys kept by `openvas_list_credentials`.
pub open spec fn list_credentials_keys() -> Seq<Seq<char>> {
    seq!["id"@, "name"@, "type"@, "login"@, "inUse"@]
}

fn list_credentials_key_list() -> (r: Vec<&'static str>)
    ensures
        str_views(r@) == list_credentials_keys(),
{
    let r: Vec<&'static str> = vec!["id", "name", "type", "login", "inUse"];
    assert(str_views(r@) =~= list_credentials_keys());
    r
}

/// The `openvas_list_credentials` call: `GET /credentials` with the list query, each row summarized to
/// its key fields, pagination kept.
pub fn list_credentials(params: &ListParams) -> (c: ToolCall)
    ensures
        c.spec() == list_call_spec("credentials"@, "credentials"@, list_credentials_keys(), params.query_spec(), "listing credentials"@),
{
    let keys = list_credentials_key_list();
    list_call("credentials", "credentials", keys.as_slice(), params, "listing credentials")
}

/// Row keys kept by `openvas_list_credential_stores`.
pub open spec fn list_credential_stores_keys() -> Seq<Seq<char>> {
    seq!["id"@, "name"@, "provider"@, "default"@, "writable"@]
}

fn list_credential_stores_key_list() -> (r: Vec<&'static str>)
    ensures
        str_views(r@) == list_credential_stores_keys(),
{
    let r: Vec<&'static str> = vec!["id", "name", "provider", "default", "writable"];
    assert(str_views(r@) =~= list_credential_stores_keys());
    r
}

/// The `openvas_list_credential_stores` call: `GET /credential-stores` with the list query, each row summarized to
/// its key fields, pagination kept.
pub fn list_credential_stores(params: &ListParams) -> (c: ToolCall)
    ensures
        c.spec() == list_call_spec("credential-stores"@, "credentialStores"@, list_credential_stores_keys(), params.query_spec(), "listing credential stores"@),
{
    let keys = list_credential_stores_key_list();
    list_call("credential-stores", "credentialStores", keys.as_slice(), params, "listing credential stores")
}

/// The `openvas_get_credential` call: `GET /credentials/<id>`, the gateway's JSON passed through.
pub fn get_credential(params: &GetByIdParams) -> (c: ToolCall)
    ensures
        c.spec() == get_call_spec(seq!["credentials"@, params.id@], "fetching the credential"@),
{
    get_by_id_call("credentials", params, "fetching the credential")
}

/// Arguments for `openvas_create_credential`.
#[derive(Debug)]
pub struct CreateCredentialParams {
    /// Credential name
    pub name: String,
    /// Credential kind: up, cc, snmp, snmpv3 or pw
    pub credential_type: String,
    /// Optional comment
    pub comment: Option<String>,
    /// Login/username (up, snmp, snmpv3)
    pub login: Option<String>,
    /// Password (up, snmpv3)
    pub password: Option<String>,
    /// PEM private key (cc)
    pub private_key: Option<String>,
    /// PEM certificate (cc)
    pub certificate: Option<String>,
    /// SNMP community string (snmp)
    pub community: Option<String>,
    /// SNMPv3 auth algorithm (md5 or sha1)
    pub auth_algorithm: Option<String>,
    /// SNMPv3 privacy algorithm (aes or des)
    pub privacy_algorithm: Option<String>,
    /// SNMPv3 privacy password
    pub privacy_password: Option<String>,
}

/// The request body of `create_credential`: the set fields under their gateway keys.
pub open spec fn create_credential_body(p: CreateCredentialParams) -> Seq<(Seq<char>, Json)> {
    Seq::empty()
        + seq![("name"@, Json::Str(p.name@))]
        + seq![("type"@, Json::Str(p.credential_type@))]
        + opt_field("comment"@, opt_str_json(p.comment))
        + opt_field("login"@, opt_str_json(p.login))
        + opt_field("password"@, opt_str_json(p.password))
        + opt_field("privateKey"@, opt_str_json(p.private_key))
        + opt_field("certificate"@, opt_str_json(p.certificate))
        + opt_field("community"@, opt_str_json(p.community))
        + opt_field("authAlgorithm"@, opt_str_json(p.auth_algorithm))
        + opt_field("privacyAlgorithm"@, opt_str_json(p.privacy_algorithm))
        + opt_field("privacyPassword"@, opt_str_json(p.privacy_password))
}

/// Each argument of `openvas_create_credential` lands under its own gateway key: the body
/// holds every given field under its key, omits the absent ones, carries
/// no other key, and no key twice.
#[verifier::rlimit(60)]
#[verifier::spinoff_prover]
pub proof fn law_create_credential_body(p: CreateCredentialParams)
    ensures
        Json::Object(create_credential_body(p)).get("name"@) == Some(Json::Str(p.name@)),
        Json::Object(create_credential_body(p)).get("type"@) == Some(Json::Str(p.credential_type@)),
        Json::Object(create_credential_body(p)).get("comment"@) == opt_str_json(p.comment),
        Json::Object(create_credential_body(p)).get("login"@) == opt_str_json(p.login),
        Json::Object(create_credential_body(p)).get("password"@) == opt_str_json(p.password),
        Json::Object(create_credential_body(p)).get("privateKey"@) == opt_str_json(p.private_key),
        Json::Object(create_credential_body(p)).get("certificate"@) == opt_str_json(p.certificate),
        Json::Object(create_credential_body(p)).get("community"@) == opt_str_json(p.community),
        Json::Object(create_credential_body(p)).get("authAlgorithm"@) == opt_str_json(p.auth_algorithm),
        Json::Object(create_credential_body(p)).get("privacyAlgorithm"@) == opt_str_json(p.privacy_algorithm),
        Json::Object(create_credential_body(p)).get("privacyPassword"@) == opt_str_json(p.privacy_password),
        forall|key: Seq<char>| #[trigger] key_count(create_credential_body(p), key) <= 1,
        forall|key: Seq<char>| #[trigger] key_count(create_credential_body(p), key) > 0 ==> (key == "name"@ || key == "type"@ || key == "comment"@ || key == "login"@ || key == "password"@ || key == "privateKey"@ || key == "certificate"@ || key == "community"@ || key == "authAlgorithm"@ || key == "privacyAlgorithm"@ || key == "privacyPassword"@),
{
    lemma_entries_algebra();
    lemma_opt_field_algebra();
    reveal_strlit("name");
    assert("name"@.len() == 4);
    reveal_strlit("type");
    assert("type"@.len() == 4);
    reveal_strlit("comment");
    assert("comment"@.len() == 7);
    reveal_strlit("login");
    assert("login"@.len() == 5);
    reveal_strlit("password");
    assert("password"@.len() == 8);
    reveal_strlit("privateKey");
    assert("privateKey"@.len() == 10);
    reveal_strlit("certificate");
    assert("certificate"@.len() == 11);
    reveal_strlit("community");
    assert("community"@.len() == 9);
    reveal_strlit("authAlgorithm");
    assert("authAlgorithm"@.len() == 13);
    reveal_strlit("privacyAlgorithm");
    assert("privacyAlgorithm"@.len() == 16);
    reveal_strlit("privacyPassword");
    assert("privacyPassword"@.len() == 15);
    assert("name"@[0] != "type"@[0]);
}

/// The `openvas_create_credential` call: `POST /credentials` with the body; the gateway's
/// `{id}` envelope is passed through. Not idempotent.
pub fn create_credential(params: CreateCredentialParams) -> (c: ToolCall)
    ensures
        c.spec() == create_call_spec("credentials"@, create_credential_body(params), "creating the credential"@),
{
    let body = Body::new()
        .set("name", JsonValue::Str(params.name))
        .set("type", JsonValue::Str(params.credential_type))
        .set_opt("comment", opt_string(params.comment))
        .set_opt("login", opt_string(params.login))
        .set_opt("password", opt_string(params.password))
        .set_opt("privateKey", opt_string(params.private_key))
        .set_opt("certificate", opt_string(params.certificate))
        .set_opt("community", opt_string(params.community))
        .set_opt("authAlgorithm", opt_string(params.auth_algorithm))
        .set_opt("privacyAlgorithm", opt_string(params.privacy_algorithm))
        .set_opt("privacyPassword", opt_string(params.privacy_password));
    create_call("credentials", body, "creating the credential")
}

/// Arguments for `openvas_update_credential`: omitted fields stay unchanged.
#[derive(Debug)]
pub struct UpdateCredentialParams {
    /// UUID of the credential to update
    pub id: String,
    pub name: Option<String>,
    pub comment: Option<String>,
    pub login: Option<String>,
    pub password: Option<String>,
    pub private_key: Option<String>,
    pub certificate: Option<String>,
    pub community: Option<String>,
    pub auth_algorithm: Option<String>,
    pub privacy_algorithm: Option<String>,
    pub privacy_password: Option<String>,
}

/// The request body of `update_credential`: the set fields under their gateway keys.
pub open spec fn update_credential_body(p: UpdateCredentialParams) -> Seq<(Seq<char>, Json)> {
    Seq::empty()
        + opt_field("name"@, opt_str_json(p.name))
        + opt_field("comment"@, opt_str_json(p.comment))
        + opt_field("login"@, opt_str_json(p.login))
        + opt_field("password"@, opt_str_json(p.password))
        + opt_field("privateKey"@, opt_str_json(p.private_key))
        + opt_field("certificate"@, opt_str_json(p.certificate))
        + opt_field("community"@, opt_str_json(p.community))
        + opt_field("authAlgorithm"@, opt_str_json(p.auth_algorithm))
        + opt_field("privacyAlgorithm"@, opt_str_json(p.privacy_algorithm))
        + opt_field("privacyPassword"@, opt_str_json(p.privacy_password))
}

/// Each argument of `openvas_update_credential` lands under its own gateway key: the body
/// holds every given field under its key, omits the absent ones, carries
/// no other key, and no key twice.
pub proof fn law_update_credential_body(p: UpdateCredentialParams)
    ensures
        Json::Object(update_credential_body(p)).get("name"@) == opt_str_json(p.name),
        Json::Object(update_credential_body(p)).get("comment"@) == opt_str_json(p.comment),
        Json::Object(update_credential_body(p)).get("login"@) == opt_str_json(p.login),
        Json::Object(update_credential_body(p)).get("password"@) == opt_str_json(p.password),
        Json::Object(update_credential_body(p)).get("privateKey"@) == opt_str_json(p.private_key),
        Json::Object(update_credential_body(p)).get("certificate"@) == opt_str_json(p.certificate),
        Json::Object(update_credential_body(p)).get("community"@) == opt_str_json(p.community),
        Json::Object(update_credential_body(p)).get("authAlgorithm"@) == opt_str_json(p.auth_algorithm),
        Json::Object(update_credential_body(p)).get("privacyAlgorithm"@) == opt_str_json(p.privacy_algorithm),
        Json::Object(update_credential_body(p)).get("privacyPassword"@) == opt_str_json(p.privacy_password),
        forall|key: Seq<char>| #[trigger] key_count(update_credential_body(p), key) <= 1,
        forall|key: Seq<char>| #[trigger] key_count(update_credential_body(p), key) > 0 ==> (key == "name"@ || key == "comment"@ || key == "login"@ || key == "password"@ || key == "privateKey"@ || key == "certificate"@ || key == "community"@ || key == "authAlgorithm"@ || key == "privacyAlgorithm"@ || key == "privacyPassword"@),
{
    lemma_entries_algebra();
    lemma_opt_field_algebra();
    reveal_strlit("name");
    assert("name"@.len() == 4);
    reveal_strlit("comment");
    assert("comment"@.len() == 7);
    reveal_strlit("login");
    assert("login"@.len() == 5);
    reveal_strlit("password");
    assert("password"@.len() == 8);
    reveal_strlit("privateKey");
    assert("privateKey"@.len() == 10);
    reveal_strlit("certificate");
    assert("certificate"@.len() == 11);
    reveal_strlit("community");
    assert("community"@.len() == 9);
    reveal_strlit("authAlgorithm");
    assert("authAlgorithm"@.len() == 13);
    reveal_strlit("privacyAlgorithm");
    assert("privacyAlgorithm"@.len() == 16);
    reveal_strlit("privacyPassword");
    assert("privacyPassword"@.len() == 15);
}

/// The `openvas_update_credential` call: `PUT /credentials/<id>` with the set fields; the
/// updated resource is passed through.
pub fn update_credential(params: UpdateCredentialParams) -> (c: ToolCall)
    ensures
        c.spec() == update_call_spec(seq!["credentials"@, params.id@], update_credential_body(params), "updating the credential"@),
{
    let segs = resource_id("credentials", &params.id);
    let body = Body::new()
        .set_opt("name", opt_string(params.name))
        .set_opt("comment", opt_string(params.comment))
        .set_opt("login", opt_string(params.login))
        .set_opt("password", opt_string(params.password))
        .set_opt("privateKey", opt_string(params.private_key))
        .set_opt("certificate", opt_string(params.certificate))
        .set_opt("community", opt_string(params.community))
        .set_opt("authAlgorithm", opt_string(params.auth_algorithm))
        .set_opt("privacyAlgorithm", opt_string(params.privacy_algorithm))
        .set_opt("privacyPassword", opt_string(params.privacy_password));
    update_call(segs, body, "updating the credential")
}

/// The `openvas_delete_credential` call: `DELETE /credentials/<id>` (to the trashcan unless
/// `ultimate`), acknowledged as `{"deleted": true, "id": <id>}`.
pub fn delete_credential(params: &DeleteParams) -> (c: ToolCall)
    ensures
        c.spec() == delete_call_spec("credentials"@, params.id@, params.query_spec(), "deleting the credential"@),
{
    delete_call("credentials", params, "deleting the credential")
}

} // verus!
