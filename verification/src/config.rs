//! Runtime configuration: where the database lives and where the
//! control surface listens. Reading the environment and the
//! configuration file is the embedding program's job; applying the
//! overrides and normalising the database path is verified here.

use vstd::prelude::*;

use crate::errors::AppError;
use crate::textspec::{
    has_parent_component, is_absolute_path, join_path, path_starts_with, str_has_parent_component,
    str_has_prefix, str_is_absolute, str_path_starts_with,
};

verus! {

broadcast use vstd::string::group_string_axioms;

/// The runtime's configuration.
pub struct Config {
    pub database_url: String,
    pub host: String,
    pub port: u16,
}

/// Optional overrides read from a configuration file.
pub struct FileConfig {
    pub database_url: Option<String>,
    pub host: Option<String>,
    pub port: Option<u16>,
}

/// Whether a database locator selects the SQLite backend.
pub open spec fn has_sqlite_prefix(url: Seq<char>) -> bool {
    "sqlite:"@.is_prefix_of(url)
}

/// The filesystem path inside a SQLite locator.
pub open spec fn sqlite_path(url: Seq<char>) -> Seq<char> {
    url.subrange("sqlite:"@.len() as int, url.len() as int)
}

impl Default for Config {
    /// The built-in defaults: a SQLite database file next to the
    /// runtime, listening on every interface.
    fn default() -> (r: Self)
        ensures
            r.database_url@ == "sqlite:atom_node.db"@,
            r.host@ == "0.0.0.0"@,
            r.port == 3000,
    {
        Config {
            database_url: String::from_str("sqlite:atom_node.db"),
            host: String::from_str("0.0.0.0"),
            port: 3000,
        }
    }
}

impl Config {
    /// Lays the overrides of a configuration file over this
    /// configuration; absent entries leave the field as it was.
    pub fn apply_file(&mut self, file: FileConfig)
        ensures
            final(self).database_url@ == match file.database_url {
                Some(u) => u@,
                None => old(self).database_url@,
            },
            final(self).host@ == match file.host {
                Some(h) => h@,
                None => old(self).host@,
            },
            final(self).port == match file.port {
                Some(p) => p,
                None => old(self).port,
            },
    {
        if let Some(database_url) = file.database_url {
            self.database_url = database_url;
        }
        if let Some(host) = file.host {
            self.host = host;
        }
        if let Some(port) = file.port {
            self.port = port;
        }
    }

    /// Pins a SQLite database path under the install root: a locator
    /// without the SQLite prefix passes through; an absolute path must
    /// already lie under the root; a relative path must not climb out
    /// of it and is rewritten as absolute under the root. Only the
    /// database locator is ever changed.
    pub fn normalize_database_url(&mut self, install_root: &str) -> (r: Result<(), AppError>)
        ensures
            final(self).host@ == old(self).host@,
            final(self).port == old(self).port,
            !has_sqlite_prefix(old(self).database_url@) ==> r is Ok && final(self).database_url@
                == old(self).database_url@,
            has_sqlite_prefix(old(self).database_url@) && is_absolute_path(
                sqlite_path(old(self).database_url@),
            ) ==> {
                &&& r is Ok <==> path_starts_with(
                    sqlite_path(old(self).database_url@),
                    install_root@,
                )
                &&& final(self).database_url@ == old(self).database_url@
            },
            has_sqlite_prefix(old(self).database_url@) && !is_absolute_path(
                sqlite_path(old(self).database_url@),
            ) ==> {
                &&& r is Ok <==> !has_parent_component(sqlite_path(old(self).database_url@))
                &&& r is Ok ==> final(self).database_url@ == "sqlite:"@ + join_path(
                    install_root@,
                    sqlite_path(old(self).database_url@),
                )
                &&& r is Err ==> final(self).database_url@ == old(self).database_url@
            },
            r matches Err(e) ==> e@ matches crate::errors::AppErrorV::Validation { .. },
    {
        proof {
            reveal_strlit("sqlite:");
        }
        if !str_has_prefix(self.database_url.as_str(), "sqlite:") {
            return Ok(());
        }
        let n = self.database_url.as_str().unicode_len();
        let path = self.database_url.as_str().substring_char(7, n);
        if str_is_absolute(path) {
            if !str_path_starts_with(path, install_root) {
                return Err(
                    AppError::Validation(
                        String::from_str("SQLite database path must be under the install root"),
                    ),
                );
            }
            return Ok(());
        }
        if str_has_parent_component(path) {
            return Err(
                AppError::Validation(
                    String::from_str("SQLite database path cannot contain '..'"),
                ),
            );
        }
        let joined = crate::textspec::join_path_exec(install_root, path);
        let mut url = String::from_str("sqlite:");
        url.append(joined.as_str());
        self.database_url = url;
        Ok(())
    }
}

} // verus!
