//! Plain settings values and the connection-list operations.
//!
//! The on-disk settings document itself is handled outside this
//! library; here live the typed values it carries and the rules for
//! editing the list of saved connections, chiefly that marking one
//! connection as the default unmarks every other one.

use vstd::prelude::*;
use vstd::string::*;

verus! {

/// General application preferences.
#[derive(Debug, Clone)]
pub struct GeneralSettings {
    pub auto_refresh: bool,
    pub refresh_interval: u32,
    pub default_download_location: String,
    pub confirm_before_delete: bool,
    pub show_file_preview: bool,
}

impl Default for GeneralSettings {
    fn default() -> (r: Self)
        ensures
            r.auto_refresh == true,
            r.refresh_interval == 30,
            r.default_download_location@ == Seq::<char>::empty(),
            r.confirm_before_delete == true,
            r.show_file_preview == true,
    {
        GeneralSettings {
            auto_refresh: true,
            refresh_interval: 30,
            default_download_location: String::new(),
            confirm_before_delete: true,
            show_file_preview: true,
        }
    }
}

/// One saved connection: the caller-chosen name, the service kind, and
/// the raw endpoint and credential fields a configuration is validated
/// from.
#[derive(Debug, Clone)]
pub struct ConnectionConfig {
    pub name: String,
    pub service_type: String,
    pub endpoint: String,
    pub access_key: String,
    pub secret_key: String,
    pub region: String,
    pub is_default: bool,
}

/// The mathematical value of a saved connection.
pub struct ConnectionFields {
    pub name: Seq<char>,
    pub service_type: Seq<char>,
    pub endpoint: Seq<char>,
    pub access_key: Seq<char>,
    pub secret_key: Seq<char>,
    pub region: Seq<char>,
    pub is_default: bool,
}

impl View for ConnectionConfig {
    type V = ConnectionFields;

    open spec fn view(&self) -> ConnectionFields {
        ConnectionFields {
            name: self.name@,
            service_type: self.service_type@,
            endpoint: self.endpoint@,
            access_key: self.access_key@,
            secret_key: self.secret_key@,
            region: self.region@,
            is_default: self.is_default,
        }
    }
}

/// Listing layout preferences.
#[derive(Debug, Clone)]
pub struct LayoutSettings {
    pub default_view: String,
    pub sort_by: String,
    pub sort_direction: String,
}

impl Default for LayoutSettings {
    fn default() -> (r: Self)
        ensures
            r.default_view@ == "list"@,
            r.sort_by@ == "name"@,
            r.sort_direction@ == "asc"@,
    {
        LayoutSettings {
            default_view: String::from_str("list"),
            sort_by: String::from_str("name"),
            sort_direction: String::from_str("asc"),
        }
    }
}

/// Privacy and caching preferences.
#[derive(Debug, Clone)]
pub struct PermissionsSettings {
    pub allow_anonymous_usage_stats: bool,
    pub enable_caching: bool,
}

impl Default for PermissionsSettings {
    fn default() -> (r: Self)
        ensures
            r.allow_anonymous_usage_stats == false,
            r.enable_caching == true,
    {
        PermissionsSettings { allow_anonymous_usage_stats: false, enable_caching: true }
    }
}

/// The entry keeps every field of `c` but has its default mark cleared.
pub open spec fn default_cleared(c: ConnectionFields, r: ConnectionFields) -> bool {
    r == ConnectionFields { is_default: false, ..c }
}

fn clone_with_default_cleared(c: &ConnectionConfig) -> (r: ConnectionConfig)
    ensures
        default_cleared(c@, r@),
{
    ConnectionConfig {
        name: c.name.clone(),
        service_type: c.service_type.clone(),
        endpoint: c.endpoint.clone(),
        access_key: c.access_key.clone(),
        secret_key: c.secret_key.clone(),
        region: c.region.clone(),
        is_default: false,
    }
}

/// Appends a saved connection. When the new connection is marked as the
/// default, the default mark is cleared from every existing entry, so
/// that afterwards the new entry is the only default.
pub fn add_connection(connections: &mut Vec<ConnectionConfig>, connection: ConnectionConfig)
    ensures
        final(connections)@.len() == old(connections)@.len() + 1,
        final(connections)@.last()@ == connection@,
        forall|i: int|
            0 <= i < old(connections)@.len() ==> (#[trigger] final(connections)@[i])@ == (
            if connection.is_default {
                ConnectionFields { is_default: false, ..old(connections)@[i]@ }
            } else {
                old(connections)@[i]@
            }),
        connection.is_default ==> forall|i: int|
            0 <= i < final(connections)@.len() - 1 ==> !(#[trigger] final(connections)@[i])@.is_default,
{
    if connection.is_default {
        let n = connections.len();
        let mut cleared: Vec<ConnectionConfig> = Vec::new();
        let mut i: usize = 0;
        while i < n
            invariant
                n == connections@.len(),
                i <= n,
                cleared@.len() == i,
                forall|k: int|
                    0 <= k < i ==> default_cleared(
                        connections@[k]@,
                        (#[trigger] cleared@[k])@,
                    ),
            decreases n - i,
        {
            let c = clone_with_default_cleared(&connections[i]);
            cleared.push(c);
            i += 1;
        }
        cleared.push(connection);
        *connections = cleared;
    } else {
        connections.push(connection);
    }
}

/// Replaces the entry at `index`. Fails, and changes nothing, when the
/// index is out of bounds. When the replacement is marked as the
/// default, the default mark is cleared from every other entry.
pub fn update_connection(
    connections: &mut Vec<ConnectionConfig>,
    index: usize,
    connection: ConnectionConfig,
) -> (r: Result<(), String>)
    ensures
        index >= old(connections)@.len() ==> (r matches Err(m) && m@
            == "Connection index out of bounds"@ && final(connections)@ == old(connections)@),
        index < old(connections)@.len() ==> {
            &&& r is Ok
            &&& final(connections)@.len() == old(connections)@.len()
            &&& final(connections)@[index as int]@ == connection@
            &&& forall|i: int|
                0 <= i < old(connections)@.len() && i != index
                    ==> (#[trigger] final(connections)@[i])@ == (if connection.is_default {
                    ConnectionFields { is_default: false, ..old(connections)@[i]@ }
                } else {
                    old(connections)@[i]@
                })
        },
{
    let n = connections.len();
    if index >= n {
        return Err(String::from_str("Connection index out of bounds"));
    }
    if connection.is_default {
        let mut updated: Vec<ConnectionConfig> = Vec::new();
        let mut i: usize = 0;
        while i < n
            invariant
                n == connections@.len(),
                index < n,
                i <= n,
                updated@.len() == i,
                forall|k: int|
                    0 <= k < i && k != index ==> default_cleared(
                        connections@[k]@,
                        (#[trigger] updated@[k])@,
                    ),
                i > index ==> updated@[index as int]@ == connection@,
            decreases n - i,
        {
            if i == index {
                let c = ConnectionConfig {
                    name: connection.name.clone(),
                    service_type: connection.service_type.clone(),
                    endpoint: connection.endpoint.clone(),
                    access_key: connection.access_key.clone(),
                    secret_key: connection.secret_key.clone(),
                    region: connection.region.clone(),
                    is_default: connection.is_default,
                };
                updated.push(c);
            } else {
                let c = clone_with_default_cleared(&connections[i]);
                updated.push(c);
            }
            i += 1;
        }
        *connections = updated;
    } else {
        let mut updated: Vec<ConnectionConfig> = Vec::new();
        let mut i: usize = 0;
        while i < n
            invariant
                n == connections@.len(),
                index < n,
                i <= n,
                updated@.len() == i,
                forall|k: int|
                    0 <= k < i && k != index ==> (#[trigger] updated@[k])@ == connections@[k]@,
                i > index ==> updated@[index as int]@ == connection@,
            decreases n - i,
        {
            if i == index {
                let c = ConnectionConfig {
                    name: connection.name.clone(),
                    service_type: connection.service_type.clone(),
                    endpoint: connection.endpoint.clone(),
                    access_key: connection.access_key.clone(),
                    secret_key: connection.secret_key.clone(),
                    region: connection.region.clone(),
                    is_default: connection.is_default,
                };
                updated.push(c);
            } else {
                let c = ConnectionConfig {
                    name: connections[i].name.clone(),
                    service_type: connections[i].service_type.clone(),
                    endpoint: connections[i].endpoint.clone(),
                    access_key: connections[i].access_key.clone(),
                    secret_key: connections[i].secret_key.clone(),
                    region: connections[i].region.clone(),
                    is_default: connections[i].is_default,
                };
                updated.push(c);
            }
            i += 1;
        }
        *connections = updated;
    }
    Ok(())
}

/// Removes the entry at `index`; fails, and changes nothing, when the
/// index is out of bounds.
pub fn remove_connection(connections: &mut Vec<ConnectionConfig>, index: usize) -> (r: Result<
    (),
    String,
>)
    ensures
        index >= old(connections)@.len() ==> (r matches Err(m) && m@
            == "Connection index out of bounds"@ && final(connections)@ == old(connections)@),
        index < old(connections)@.len() ==> r is Ok && final(connections)@ == old(
            connections,
        )@.remove(index as int),
{
    if index >= connections.len() {
        return Err(String::from_str("Connection index out of bounds"));
    }
    connections.remove(index);
    Ok(())
}

} // verus!
