//! The service's settings. There are four, each a text, and each is required:
//! a service that lacks one does not start.

use vstd::prelude::*;

verus! {

/// One of the four settings.
#[derive(Debug, Clone, Copy, PartialEq, Eq)]
pub enum Setting {
    /// The connection string of the document store.
    DatabaseUrl,
    /// The name of the database.
    DatabaseName,
    /// The name of the collection that holds the users.
    UserCollectionName,
    /// The address on which the service listens.
    ServerUrl,
}

impl Setting {
    /// The name of the environment variable that holds the setting.
    pub open spec fn variable_name(self) -> Seq<char> {
        match self {
            Setting::DatabaseUrl => "DATABASE_URL"@,
            Setting::DatabaseName => "DATABASE_NAME"@,
            Setting::UserCollectionName => "USER_COLLECTION_NAME"@,
            Setting::ServerUrl => "SERVER_URL"@,
        }
    }

    /// The name of the environment variable that holds the setting.
    pub fn variable(&self) -> (name: &'static str)
        ensures
            name@ == self.variable_name(),
    {
        match self {
            Setting::DatabaseUrl => "DATABASE_URL",
            Setting::DatabaseName => "DATABASE_NAME",
            Setting::UserCollectionName => "USER_COLLECTION_NAME",
            Setting::ServerUrl => "SERVER_URL",
        }
    }
}

/// The four settings of a service that can start.
#[derive(Debug, Clone, PartialEq, Eq)]
pub struct Settings {
    pub database_url: String,
    pub database_name: String,
    pub user_collection_name: String,
    pub server_url: String,
}

/// The first setting that is missing, in the order in which they are declared.
pub open spec fn first_missing(
    database_url: Option<String>,
    database_name: Option<String>,
    user_collection_name: Option<String>,
    server_url: Option<String>,
) -> Option<Setting> {
    if database_url is None {
        Some(Setting::DatabaseUrl)
    } else if database_name is None {
        Some(Setting::DatabaseName)
    } else if user_collection_name is None {
        Some(Setting::UserCollectionName)
    } else if server_url is None {
        Some(Setting::ServerUrl)
    } else {
        None
    }
}

/// Gathers the four settings from what the environment holds of each. Where
/// all four are there, they are kept verbatim. Where one is missing the
/// service cannot start, and the first missing one is named.
pub fn settings(
    database_url: Option<String>,
    database_name: Option<String>,
    user_collection_name: Option<String>,
    server_url: Option<String>,
) -> (gathered: Result<Settings, Setting>)
    ensures
        gathered is Ok <==> first_missing(database_url, database_name, user_collection_name, server_url)
            is None,
        gathered matches Err(missing) ==> first_missing(
            database_url,
            database_name,
            user_collection_name,
            server_url,
        ) == Some(missing),
        gathered matches Ok(found) ==> database_url == Some(found.database_url)
            && database_name == Some(found.database_name)
            && user_collection_name == Some(found.user_collection_name)
            && server_url == Some(found.server_url),
{
    let database_url = match database_url {
        Some(value) => value,
        None => return Err(Setting::DatabaseUrl),
    };
    let database_name = match database_name {
        Some(value) => value,
        None => return Err(Setting::DatabaseName),
    };
    let user_collection_name = match user_collection_name {
        Some(value) => value,
        None => return Err(Setting::UserCollectionName),
    };
    let server_url = match server_url {
        Some(value) => value,
        None => return Err(Setting::ServerUrl),
    };
    Ok(Settings { database_url, database_name, user_collection_name, server_url })
}

} // verus!
