//! Identity toolset: users, groups, roles, permissions and user settings.
//!
//! Off by default (identity is opt-in via `--toolsets identity`): these
//! tools administer accounts and access control.

use vstd::prelude::*;
use crate::json::{key_count, lemma_entries_algebra, str_views, Json, JsonValue};
use super::common::{
    create_call, create_call_spec, delete_call, delete_call_spec, get_by_id_call, get_call_spec,
    list_call, list_call_spec, opt_field, opt_str_json, opt_string, opt_strings, opt_strings_json,
    resource_id, update_call, update_call_spec, Body, DeleteParams, GetByIdParams, ListParams,
    ToolCall,
};
use crate::body::lemma_opt_field_algebra;

verus! {

/// Row keys kept by `openvas_list_users`.
pub open spec fn list_users_keys() -> Seq<Seq<char>> {
    seq!["id"@, "name"@, "roles"@, "groups"@, "hostsAllow"@, "inUse"@]
}

fn list_users_key_list() -> (r: Vec<&'static str>)
    ensures
        str_views(r@) == list_users_keys(),
{
    let r: Vec<&'static str> = vec!["id", "name", "roles", "groups", "hostsAllow", "inUse"];
    assert(str_views(r@) =~= list_users_keys());
    r
}

/// The `openvas_list_users` call: `GET /users` with the list query, each row summarized to
/// its key fields, pagination kept.
pub fn list_users(params: &ListParams) -> (c: ToolCall)
    ensures
        c.spec() == list_call_spec("users"@, "users"@, list_users_keys(), params.query_spec(), "listing users"@),
{
    let keys = list_users_key_list();
    list_call("users", "users", keys.as_slice(), params, "listing users")
}

/// The `openvas_get_user` call: `GET /users/<id>`, the gateway's JSON passed through.
pub fn get_user(params: &GetByIdParams) -> (c: ToolCall)
    ensures
        c.spec() == get_call_spec(seq!["users"@, params.id@], "fetching the user"@),
{
    get_by_id_call("users", params, "fetching the user")
}

/// Arguments for `openvas_create_user`.
#[derive(Debug)]
pub struct CreateUserParams {
    /// Login name
    pub name: String,
    /// Optional comment
    pub comment: Option<String>,
    /// Initial password (required for `file` authentication)
    pub password: Option<String>,
    /// Host restriction expression as stored by gvmd
    pub hosts: Option<String>,
    /// Role UUIDs to assign
    pub roles: Option<Vec<String>>,
    /// Authentication backend: file, ldap_connect or radius_connect
    pub authentication_type: Option<String>,
}

/// The request body of `create_user`: the set fields under their gateway keys.
pub open spec fn create_user_body(p: CreateUserParams) -> Seq<(Seq<char>, Json)> {
    Seq::empty()
        + seq![("name"@, Json::Str(p.name@))]
        + opt_field("comment"@, opt_str_json(p.comment))
        + opt_field("password"@, opt_str_json(p.password))
        + opt_field("hosts"@, opt_str_json(p.hosts))
        + opt_field("roles"@, opt_strings_json(p.roles))
        + opt_field("authenticationType"@, opt_str_json(p.authentication_type))
}

/// Each argument of `openvas_create_user` lands under its own gateway key: the body
/// holds every given field under its key, omits the absent ones, carries
/// no other key, and no key twice.
pub proof fn law_create_user_body(p: CreateUserParams)
    ensures
        Json::Object(create_user_body(p)).get("name"@) == Some(Json::Str(p.name@)),
        Json::Object(create_user_body(p)).get("comment"@) == opt_str_json(p.comment),
        Json::Object(create_user_body(p)).get("password"@) == opt_str_json(p.password),
        Json::Object(create_user_body(p)).get("hosts"@) == opt_str_json(p.hosts),
        Json::Object(create_user_body(p)).get("roles"@) == opt_strings_json(p.roles),
        Json::Object(create_user_body(p)).get("authenticationType"@) == opt_str_json(p.authentication_type),
        forall|key: Seq<char>| #[trigger] key_count(create_user_body(p), key) <= 1,
        forall|key: Seq<char>| #[trigger] key_count(create_user_body(p), key) > 0 ==> (key == "name"@ || key == "comment"@ || key == "password"@ || key == "hosts"@ || key == "roles"@ || key == "authenticationType"@),
{
    lemma_entries_algebra();
    lemma_opt_field_algebra();
    reveal_strlit("name");
    assert("name"@.len() == 4);
    reveal_strlit("comment");
    assert("comment"@.len() == 7);
    reveal_strlit("password");
    assert("password"@.len() == 8);
    reveal_strlit("hosts");
    assert("hosts"@.len() == 5);
    reveal_strlit("roles");
    assert("roles"@.len() == 5);
    reveal_strlit("authenticationType");
    assert("authenticationType"@.len() == 18);
    assert("hosts"@[0] != "roles"@[0]);
}

/// The `openvas_create_user` call: `POST /users` with the body; the gateway's
/// `{id}` envelope is passed through. Not idempotent.
pub fn create_user(params: CreateUserParams) -> (c: ToolCall)
    ensures
        c.spec() == create_call_spec("users"@, create_user_body(params), "creating the user"@),
{
    let body = Body::new()
        .set("name", JsonValue::Str(params.name))
        .set_opt("comment", opt_string(params.comment))
        .set_opt("password", opt_string(params.password))
        .set_opt("hosts", opt_string(params.hosts))
        .set_opt("roles", opt_strings(params.roles))
        .set_opt("authenticationType", opt_string(params.authentication_type));
    create_call("users", body, "creating the user")
}

/// Arguments for `openvas_update_user`: omitted fields stay unchanged.
#[derive(Debug)]
pub struct UpdateUserParams {
    /// UUID of the user to update
    pub id: String,
    pub comment: Option<String>,
    /// New password
    pub password: Option<String>,
    pub hosts: Option<String>,
    /// Replacement role UUIDs (omitting leaves roles unchanged)
    pub roles: Option<Vec<String>>,
    pub authentication_type: Option<String>,
}

/// The request body of `update_user`: the set fields under their gateway keys.
pub open spec fn update_user_body(p: UpdateUserParams) -> Seq<(Seq<char>, Json)> {
    Seq::empty()
        + opt_field("comment"@, opt_str_json(p.comment))
        + opt_field("password"@, opt_str_json(p.password))
        + opt_field("hosts"@, opt_str_json(p.hosts))
        + opt_field("roles"@, opt_strings_json(p.roles))
        + opt_field("authenticationType"@, opt_str_json(p.authentication_type))
}

/// Each argument of `openvas_update_user` lands under its own gateway key: the body
/// holds every given field under its key, omits the absent ones, carries
/// no other key, and no key twice.
pub proof fn law_update_user_body(p: UpdateUserParams)
    ensures
        Json::Object(update_user_body(p)).get("comment"@) == opt_str_json(p.comment),
        Json::Object(update_user_body(p)).get("password"@) == opt_str_json(p.password),
        Json::Object(update_user_body(p)).get("hosts"@) == opt_str_json(p.hosts),
        Json::Object(update_user_body(p)).get("roles"@) == opt_strings_json(p.roles),
        Json::Object(update_user_body(p)).get("authenticationType"@) == opt_str_json(p.authentication_type),
        forall|key: Seq<char>| #[trigger] key_count(update_user_body(p), key) <= 1,
        forall|key: Seq<char>| #[trigger] key_count(update_user_body(p), key) > 0 ==> (key == "comment"@ || key == "password"@ || key == "hosts"@ || key == "roles"@ || key == "authenticationType"@),
{
    lemma_entries_algebra();
    lemma_opt_field_algebra();
    reveal_strlit("comment");
    assert("comment"@.len() == 7);
    reveal_strlit("password");
    assert("password"@.len() == 8);
    reveal_strlit("hosts");
    assert("hosts"@.len() == 5);
    reveal_strlit("roles");
    assert("roles"@.len() == 5);
    reveal_strlit("authenticationType");
    assert("authenticationType"@.len() == 18);
    assert("hosts"@[0] != "roles"@[0]);
}

/// The `openvas_update_user` call: `PUT /users/<id>` with the set fields; the
/// updated resource is passed through.
pub fn update_user(params: UpdateUserParams) -> (c: ToolCall)
    ensures
        c.spec() == update_call_spec(seq!["users"@, params.id@], update_user_body(params), "updating the user"@),
{
    let segs = resource_id("users", &params.id);
    let body = Body::new()
        .set_opt("comment", opt_string(params.comment))
        .set_opt("password", opt_string(params.password))
        .set_opt("hosts", opt_string(params.hosts))
        .set_opt("roles", opt_strings(params.roles))
        .set_opt("authenticationType", opt_string(params.authentication_type));
    update_call(segs, body, "updating the user")
}

/// The `openvas_delete_user` call: `DELETE /users/<id>` (to the trashcan unless
/// `ultimate`), acknowledged as `{"deleted": true, "id": <id>}`.
pub fn delete_user(params: &DeleteParams) -> (c: ToolCall)
    ensures
        c.spec() == delete_call_spec("users"@, params.id@, params.query_spec(), "deleting the user"@),
{
    delete_call("users", params, "deleting the user")
}

/// Row keys kept by `openvas_list_groups`.
pub open spec fn list_groups_keys() -> Seq<Seq<char>> {
    seq!["id"@, "name"@, "comment"@, "users"@, "inUse"@]
}

fn list_groups_key_list() -> (r: Vec<&'static str>)
    ensures
        str_views(r@) == list_groups_keys(),
{
    let r: Vec<&'static str> = vec!["id", "name", "comment", "users", "inUse"];
    assert(str_views(r@) =~= list_groups_keys());
    r
}

/// The `openvas_list_groups` call: `GET /groups` with the list query, each row summarized to
/// its key fields, pagination kept.
pub fn list_groups(params: &ListParams) -> (c: ToolCall)
    ensures
        c.spec() == list_call_spec("groups"@, "groups"@, list_groups_keys(), params.query_spec(), "listing groups"@),
{
    let keys = list_groups_key_list();
    list_call("groups", "groups", keys.as_slice(), params, "listing groups")
}

/// The `openvas_get_group` call: `GET /groups/<id>`, the gateway's JSON passed through.
pub fn get_group(params: &GetByIdParams) -> (c: ToolCall)
    ensures
        c.spec() == get_call_spec(seq!["groups"@, params.id@], "fetching the group"@),
{
    get_by_id_call("groups", params, "fetching the group")
}

/// Arguments for `openvas_create_group`.
#[derive(Debug)]
pub struct CreateMembershipParams {
    /// Name
    pub name: String,
    /// Optional comment
    pub comment: Option<String>,
    /// Member login names
    pub users: Option<Vec<String>>,
}

/// The request body of `create_group`: the set fields under their gateway keys.
pub open spec fn create_group_body(p: CreateMembershipParams) -> Seq<(Seq<char>, Json)> {
    Seq::empty()
        + seq![("name"@, Json::Str(p.name@))]
        + opt_field("comment"@, opt_str_json(p.comment))
        + opt_field("users"@, opt_strings_json(p.users))
}

/// Each argument of `openvas_create_group` lands under its own gateway key: the body
/// holds every given field under its key, omits the absent ones, carries
/// no other key, and no key twice.
pub proof fn law_create_group_body(p: CreateMembershipParams)
    ensures
        Json::Object(create_group_body(p)).get("name"@) == Some(Json::Str(p.name@)),
        Json::Object(create_group_body(p)).get("comment"@) == opt_str_json(p.comment),
        Json::Object(create_group_body(p)).get("users"@) == opt_strings_json(p.users),
        forall|key: Seq<char>| #[trigger] key_count(create_group_body(p), key) <= 1,
        forall|key: Seq<char>| #[trigger] key_count(create_group_body(p), key) > 0 ==> (key == "name"@ || key == "comment"@ || key == "users"@),
{
    lemma_entries_algebra();
    lemma_opt_field_algebra();
    reveal_strlit("name");
    assert("name"@.len() == 4);
    reveal_strlit("comment");
    assert("comment"@.len() == 7);
    reveal_strlit("users");
    assert("users"@.len() == 5);
}

/// The `openvas_create_group` call: `POST /groups` with the body; the gateway's
/// `{id}` envelope is passed through. Not idempotent.
pub fn create_group(params: CreateMembershipParams) -> (c: ToolCall)
    ensures
        c.spec() == create_call_spec("groups"@, create_group_body(params), "creating the group"@),
{
    let body = Body::new()
        .set("name", JsonValue::Str(params.name))
        .set_opt("comment", opt_string(params.comment))
        .set_opt("users", opt_strings(params.users));
    create_call("groups", body, "creating the group")
}

/// Arguments for `openvas_update_group`: omitted fields stay unchanged.
#[derive(Debug)]
pub struct UpdateMembershipParams {
    /// UUID of the group/role to update
    pub id: String,
    pub comment: Option<String>,
    /// Replacement member login names
    pub users: Option<Vec<String>>,
}

/// The request body of `update_group`: the set fields under their gateway keys.
pub open spec fn update_group_body(p: UpdateMembershipParams) -> Seq<(Seq<char>, Json)> {
    Seq::empty()
        + opt_field("comment"@, opt_str_json(p.comment))
        + opt_field("users"@, opt_strings_json(p.users))
}

/// Each argument of `openvas_update_group` lands under its own gateway key: the body
/// holds every given field under its key, omits the absent ones, carries
/// no other key, and no key twice.
pub proof fn law_update_group_body(p: UpdateMembershipParams)
    ensures
        Json::Object(update_group_body(p)).get("comment"@) == opt_str_json(p.comment),
        Json::Object(update_group_body(p)).get("users"@) == opt_strings_json(p.users),
        forall|key: Seq<char>| #[trigger] key_count(update_group_body(p), key) <= 1,
        forall|key: Seq<char>| #[trigger] key_count(update_group_body(p), key) > 0 ==> (key == "comment"@ || key == "users"@),
{
    lemma_entries_algebra();
    lemma_opt_field_algebra();
    reveal_strlit("comment");
    assert("comment"@.len() == 7);
    reveal_strlit("users");
    assert("users"@.len() == 5);
}

/// The `openvas_update_group` call: `PUT /groups/<id>` with the set fields; the
/// updated resource is passed through.
pub fn update_group(params: UpdateMembershipParams) -> (c: ToolCall)
    ensures
        c.spec() == update_call_spec(seq!["groups"@, params.id@], update_group_body(params), "updating the group"@),
{
    let segs = resource_id("groups", &params.id);
    let body = Body::new()
        .set_opt("comment", opt_string(params.comment))
        .set_opt("users", opt_strings(params.users));
    update_call(segs, body, "updating the group")
}

/// The `openvas_delete_group` call: `DELETE /groups/<id>` (to the trashcan unless
/// `ultimate`), acknowledged as `{"deleted": true, "id": <id>}`.
pub fn delete_group(params: &DeleteParams) -> (c: ToolCall)
    ensures
        c.spec() == delete_call_spec("groups"@, params.id@, params.query_spec(), "deleting the group"@),
{
    delete_call("groups", params, "deleting the group")
}

/// Row keys kept by `openvas_list_roles`.
pub open spec fn list_roles_keys() -> Seq<Seq<char>> {
    seq!["id"@, "name"@, "comment"@, "users"@, "inUse"@]
}

fn list_roles_key_list() -> (r: Vec<&'static str>)
    ensures
        str_views(r@) == list_roles_keys(),
{
    let r: Vec<&'static str> = vec!["id", "name", "comment", "users", "inUse"];
    assert(str_views(r@) =~= list_roles_keys());
    r
}

/// The `openvas_list_roles` call: `GET /roles` with the list query, each row summarized to
/// its key fields, pagination kept.
pub fn list_roles(params: &ListParams) -> (c: ToolCall)
    ensures
        c.spec() == list_call_spec("roles"@, "roles"@, list_roles_keys(), params.query_spec(), "listing roles"@),
{
    let keys = list_roles_key_list();
    list_call("roles", "roles", keys.as_slice(), params, "listing roles")
}

/// The `openvas_get_role` call: `GET /roles/<id>`, the gateway's JSON passed through.
pub fn get_role(params: &GetByIdParams) -> (c: ToolCall)
    ensures
        c.spec() == get_call_spec(seq!["roles"@, params.id@], "fetching the role"@),
{
    get_by_id_call("roles", params, "fetching the role")
}

/// The request body of `create_role`: the set fields under their gateway keys.
pub open spec fn create_role_body(p: CreateMembershipParams) -> Seq<(Seq<char>, Json)> {
    Seq::empty()
        + seq![("name"@, Json::Str(p.name@))]
        + opt_field("comment"@, opt_str_json(p.comment))
        + opt_field("users"@, opt_strings_json(p.users))
}

/// Each argument of `openvas_create_role` lands under its own gateway key: the body
/// holds every given field under its key, omits the absent ones, carries
/// no other key, and no key twice.
pub proof fn law_create_role_body(p: CreateMembershipParams)
    ensures
        Json::Object(create_role_body(p)).get("name"@) == Some(Json::Str(p.name@)),
        Json::Object(create_role_body(p)).get("comment"@) == opt_str_json(p.comment),
        Json::Object(create_role_body(p)).get("users"@) == opt_strings_json(p.users),
        forall|key: Seq<char>| #[trigger] key_count(create_role_body(p), key) <= 1,
        forall|key: Seq<char>| #[trigger] key_count(create_role_body(p), key) > 0 ==> (key == "name"@ || key == "comment"@ || key == "users"@),
{
    lemma_entries_algebra();
    lemma_opt_field_algebra();
    reveal_strlit("name");
    assert("name"@.len() == 4);
    reveal_strlit("comment");
    assert("comment"@.len() == 7);
    reveal_strlit("users");
    assert("users"@.len() == 5);
}

/// The `openvas_create_role` call: `POST /roles` with the body; the gateway's
/// `{id}` envelope is passed through. Not idempotent.
pub fn create_role(params: CreateMembershipParams) -> (c: ToolCall)
    ensures
        c.spec() == create_call_spec("roles"@, create_role_body(params), "creating the role"@),
{
    let body = Body::new()
        .set("name", JsonValue::Str(params.name))
        .set_opt("comment", opt_string(params.comment))
        .set_opt("users", opt_strings(params.users));
    create_call("roles", body, "creating the role")
}

/// The request body of `update_role`: the set fields under their gateway keys.
pub open spec fn update_role_body(p: UpdateMembershipParams) -> Seq<(Seq<char>, Json)> {
    Seq::empty()
        + opt_field("comment"@, opt_str_json(p.comment))
        + opt_field("users"@, opt_strings_json(p.users))
}

/// Each argument of `openvas_update_role` lands under its own gateway key: the body
/// holds every given field under its key, omits the absent ones, carries
/// no other key, and no key twice.
pub proof fn law_update_role_body(p: UpdateMembershipParams)
    ensures
        Json::Object(update_role_body(p)).get("comment"@) == opt_str_json(p.comment),
        Json::Object(update_role_body(p)).get("users"@) == opt_strings_json(p.users),
        forall|key: Seq<char>| #[trigger] key_count(update_role_body(p), key) <= 1,
        forall|key: Seq<char>| #[trigger] key_count(update_role_body(p), key) > 0 ==> (key == "comment"@ || key == "users"@),
{
    lemma_entries_algebra();
    lemma_opt_field_algebra();
    reveal_strlit("comment");
    assert("comment"@.len() == 7);
    reveal_strlit("users");
    assert("users"@.len() == 5);
}

/// The `openvas_update_role` call: `PUT /roles/<id>` with the set fields; the
/// updated resource is passed through.
pub fn update_role(params: UpdateMembershipParams) -> (c: ToolCall)
    ensures
        c.spec() == update_call_spec(seq!["roles"@, params.id@], update_role_body(params), "updating the role"@),
{
    let segs = resource_id("roles", &params.id);
    let body = Body::new()
        .set_opt("comment", opt_string(params.comment))
        .set_opt("users", opt_strings(params.users));
    update_call(segs, body, "updating the role")
}

/// The `openvas_delete_role` call: `DELETE /roles/<id>` (to the trashcan unless
/// `ultimate`), acknowledged as `{"deleted": true, "id": <id>}`.
pub fn delete_role(params: &DeleteParams) -> (c: ToolCall)
    ensures
        c.spec() == delete_call_spec("roles"@, params.id@, params.query_spec(), "deleting the role"@),
{
    delete_call("roles", params, "deleting the role")
}

/// Row keys kept by `openvas_list_permissions`.
pub open spec fn list_permissions_keys() -> Seq<Seq<char>> {
    seq!["id"@, "name"@, "subjectType"@, "subject"@, "resourceType"@, "resource"@]
}

fn list_permissions_key_list() -> (r: Vec<&'static str>)
    ensures
        str_views(r@) == list_permissions_keys(),
{
    let r: Vec<&'static str> = vec!["id", "name", "subjectType", "subject", "resourceType", "resource"];
    assert(str_views(r@) =~= list_permissions_keys());
    r
}

/// The `openvas_list_permissions` call: `GET /permissions` with the list query, each row summarized to
/// its key fields, pagination kept.
pub fn list_permissions(params: &ListParams) -> (c: ToolCall)
    ensures
        c.spec() == list_call_spec("permissions"@, "permissions"@, list_permissions_keys(), params.query_spec(), "listing permissions"@),
{
    let keys = list_permissions_key_list();
    list_call("permissions", "permissions", keys.as_slice(), params, "listing permissions")
}

/// The `openvas_get_permission` call: `GET /permissions/<id>`, the gateway's JSON passed through.
pub fn get_permission(params: &GetByIdParams) -> (c: ToolCall)
    ensures
        c.spec() == get_call_spec(seq!["permissions"@, params.id@], "fetching the permission"@),
{
    get_by_id_call("permissions", params, "fetching the permission")
}

/// Arguments for `openvas_create_permission`.
#[derive(Debug)]
pub struct CreatePermissionParams {
    /// Permission name (a GMP command name, e.g. "get_targets")
    pub name: String,
    /// Optional comment
    pub comment: Option<String>,
    /// Who receives the grant: user, group or role
    pub subject_type: Option<String>,
    /// UUID of the subject
    pub subject_id: Option<String>,
    /// Backend resource type of the grant target (e.g. "task")
    pub resource_type: Option<String>,
    /// UUID of the grant target resource
    pub resource_id: Option<String>,
}

/// The request body of `create_permission`: the set fields under their gateway keys.
pub open spec fn create_permission_body(p: CreatePermissionParams) -> Seq<(Seq<char>, Json)> {
    Seq::empty()
        + seq![("name"@, Json::Str(p.name@))]
        + opt_field("comment"@, opt_str_json(p.comment))
        + opt_field("subjectType"@, opt_str_json(p.subject_type))
        + opt_field("subjectId"@, opt_str_json(p.subject_id))
        + opt_field("resourceType"@, opt_str_json(p.resource_type))
        + opt_field("resourceId"@, opt_str_json(p.resource_id))
}

/// Each argument of `openvas_create_permission` lands under its own gateway key: the body
/// holds every given field under its key, omits the absent ones, carries
/// no other key, and no key twice.
pub proof fn law_create_permission_body(p: CreatePermissionParams)
    ensures
        Json::Object(create_permission_body(p)).get("name"@) == Some(Json::Str(p.name@)),
        Json::Object(create_permission_body(p)).get("comment"@) == opt_str_json(p.comment),
        Json::Object(create_permission_body(p)).get("subjectType"@) == opt_str_json(p.subject_type),
        Json::Object(create_permission_body(p)).get("subjectId"@) == opt_str_json(p.subject_id),
        Json::Object(create_permission_body(p)).get("resourceType"@) == opt_str_json(p.resource_type),
        Json::Object(create_permission_body(p)).get("resourceId"@) == opt_str_json(p.resource_id),
        forall|key: Seq<char>| #[trigger] key_count(create_permission_body(p), key) <= 1,
        forall|key: Seq<char>| #[trigger] key_count(create_permission_body(p), key) > 0 ==> (key == "name"@ || key == "comment"@ || key == "subjectType"@ || key == "subjectId"@ || key == "resourceType"@ || key == "resourceId"@),
{
    lemma_entries_algebra();
    lemma_opt_field_algebra();
    reveal_strlit("name");
    assert("name"@.len() == 4);
    reveal_strlit("comment");
    assert("comment"@.len() == 7);
    reveal_strlit("subjectType");
    assert("subjectType"@.len() == 11);
    reveal_strlit("subjectId");
    assert("subjectId"@.len() == 9);
    reveal_strlit("resourceType");
    assert("resourceType"@.len() == 12);
    reveal_strlit("resourceId");
    assert("resourceId"@.len() == 10);
}

/// The `openvas_create_permission` call: `POST /permissions` with the body; the gateway's
/// `{id}` envelope is passed through. Not idempotent.
pub fn create_permission(params: CreatePermissionParams) -> (c: ToolCall)
    ensures
        c.spec() == create_call_spec("permissions"@, create_permission_body(params), "creating the permission"@),
{
    let body = Body::new()
        .set("name", JsonValue::Str(params.name))
        .set_opt("comment", opt_string(params.comment))
        .set_opt("subjectType", opt_string(params.subject_type))
        .set_opt("subjectId", opt_string(params.subject_id))
        .set_opt("resourceType", opt_string(params.resource_type))
        .set_opt("resourceId", opt_string(params.resource_id));
    create_call("permissions", body, "creating the permission")
}

/// Arguments for `openvas_update_permission`: omitted fields stay unchanged.
#[derive(Debug)]
pub struct UpdatePermissionParams {
    /// UUID of the permission to update
    pub id: String,
    pub name: Option<String>,
    pub comment: Option<String>,
    pub subject_type: Option<String>,
    pub subject_id: Option<String>,
    pub resource_type: Option<String>,
    pub resource_id: Option<String>,
}

/// The request body of `update_permission`: the set fields under their gateway keys.
pub open spec fn update_permission_body(p: UpdatePermissionParams) -> Seq<(Seq<char>, Json)> {
    Seq::empty()
        + opt_field("name"@, opt_str_json(p.name))
        + opt_field("comment"@, opt_str_json(p.comment))
        + opt_field("subjectType"@, opt_str_json(p.subject_type))
        + opt_field("subjectId"@, opt_str_json(p.subject_id))
        + opt_field("resourceType"@, opt_str_json(p.resource_type))
        + opt_field("resourceId"@, opt_str_json(p.resource_id))
}

/// Each argument of `openvas_update_permission` lands under its own gateway key: the body
/// holds every given field under its key, omits the absent ones, carries
/// no other key, and no key twice.
pub proof fn law_update_permission_body(p: UpdatePermissionParams)
    ensures
        Json::Object(update_permission_body(p)).get("name"@) == opt_str_json(p.name),
        Json::Object(update_permission_body(p)).get("comment"@) == opt_str_json(p.comment),
        Json::Object(update_permission_body(p)).get("subjectType"@) == opt_str_json(p.subject_type),
        Json::Object(update_permission_body(p)).get("subjectId"@) == opt_str_json(p.subject_id),
        Json::Object(update_permission_body(p)).get("resourceType"@) == opt_str_json(p.resource_type),
        Json::Object(update_permission_body(p)).get("resourceId"@) == opt_str_json(p.resource_id),
        forall|key: Seq<char>| #[trigger] key_count(update_permission_body(p), key) <= 1,
        forall|key: Seq<char>| #[trigger] key_count(update_permission_body(p), key) > 0 ==> (key == "name"@ || key == "comment"@ || key == "subjectType"@ || key == "subjectId"@ || key == "resourceType"@ || key == "resourceId"@),
{
    lemma_entries_algebra();
    lemma_opt_field_algebra();
    reveal_strlit("name");
    assert("name"@.len() == 4);
    reveal_strlit("comment");
    assert("comment"@.len() == 7);
    reveal_strlit("subjectType");
    assert("subjectType"@.len() == 11);
    reveal_strlit("subjectId");
    assert("subjectId"@.len() == 9);
    reveal_strlit("resourceType");
    assert("resourceType"@.len() == 12);
    reveal_strlit("resourceId");
    assert("resourceId"@.len() == 10);
}

/// The `openvas_update_permission` call: `PUT /permissions/<id>` with the set fields; the
/// updated resource is passed through.
pub fn update_permission(params: UpdatePermissionParams) -> (c: ToolCall)
    ensures
        c.spec() == update_call_spec(seq!["permissions"@, params.id@], update_permission_body(params), "updating the permission"@),
{
    let segs = resource_id("permissions", &params.id);
    let body = Body::new()
        .set_opt("name", opt_string(params.name))
        .set_opt("comment", opt_string(params.comment))
        .set_opt("subjectType", opt_string(params.subject_type))
        .set_opt("subjectId", opt_string(params.subject_id))
        .set_opt("resourceType", opt_string(params.resource_type))
        .set_opt("resourceId", opt_string(params.resource_id));
    update_call(segs, body, "updating the permission")
}

/// The `openvas_delete_permission` call: `DELETE /permissions/<id>` (to the trashcan unless
/// `ultimate`), acknowledged as `{"deleted": true, "id": <id>}`.
pub fn delete_permission(params: &DeleteParams) -> (c: ToolCall)
    ensures
        c.spec() == delete_call_spec("permissions"@, params.id@, params.query_spec(), "deleting the permission"@),
{
    delete_call("permissions", params, "deleting the permission")
}

/// Row keys kept by `openvas_list_user_settings`.
pub open spec fn list_user_settings_keys() -> Seq<Seq<char>> {
    seq!["id"@, "name"@, "value"@]
}

fn list_user_settings_key_list() -> (r: Vec<&'static str>)
    ensures
        str_views(r@) == list_user_settings_keys(),
{
    let r: Vec<&'static str> = vec!["id", "name", "value"];
    assert(str_views(r@) =~= list_user_settings_keys());
    r
}

/// The `openvas_list_user_settings` call: `GET /user-settings` with the list query, each row summarized to
/// its key fields, pagination kept.
pub fn list_user_settings(params: &ListParams) -> (c: ToolCall)
    ensures
        c.spec() == list_call_spec("user-settings"@, "settings"@, list_user_settings_keys(), params.query_spec(), "listing user settings"@),
{
    let keys = list_user_settings_key_list();
    list_call("user-settings", "settings", keys.as_slice(), params, "listing user settings")
}

/// The `openvas_get_user_setting` call: `GET /user-settings/<id>`, the gateway's JSON passed through.
pub fn get_user_setting(params: &GetByIdParams) -> (c: ToolCall)
    ensures
        c.spec() == get_call_spec(seq!["user-settings"@, params.id@], "fetching the user setting"@),
{
    get_by_id_call("user-settings", params, "fetching the user setting")
}

/// Arguments for `openvas_update_user_setting`: omitted fields stay unchanged.
#[derive(Debug)]
pub struct UpdateUserSettingParams {
    /// UUID of the setting
    pub id: String,
    /// New value
    pub value: String,
}

/// The request body of `update_user_setting`: the set fields under their gateway keys.
pub open spec fn update_user_setting_body(p: UpdateUserSettingParams) -> Seq<(Seq<char>, Json)> {
    Seq::empty()
        + seq![("value"@, Json::Str(p.value@))]
}

/// Each argument of `openvas_update_user_setting` lands under its own gateway key: the body
/// holds every given field under its key, omits the absent ones, carries
/// no other key, and no key twice.
pub proof fn law_update_user_setting_body(p: UpdateUserSettingParams)
    ensures
        Json::Object(update_user_setting_body(p)).get("value"@) == Some(Json::Str(p.value@)),
        forall|key: Seq<char>| #[trigger] key_count(update_user_setting_body(p), key) <= 1,
        forall|key: Seq<char>| #[trigger] key_count(update_user_setting_body(p), key) > 0 ==> (key == "value"@),
{
    lemma_entries_algebra();
    lemma_opt_field_algebra();
    reveal_strlit("value");
    assert("value"@.len() == 5);
}

/// The `openvas_update_user_setting` call: `PUT /user-settings/<id>` with the set fields; the
/// updated resource is passed through.
pub fn update_user_setting(params: UpdateUserSettingParams) -> (c: ToolCall)
    ensures
        c.spec() == update_call_spec(seq!["user-settings"@, params.id@], update_user_setting_body(params), "updating the user setting"@),
{
    let segs = resource_id("user-settings", &params.id);
    let body = Body::new()
        .set("value", JsonValue::Str(params.value));
    update_call(segs, body, "updating the user setting")
}

} // verus!
