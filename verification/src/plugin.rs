//! The plugin record: an installed, named, versioned package of
//! interpreted-language code with a declared entry point.

use vstd::prelude::*;

use crate::errors::AppError;
use crate::params::{clone_params, params_view, params_wf, ParamV, PluginParameter};
use crate::textspec::{str_eq, valid_entry_point};

verus! {

broadcast use vstd::string::group_string_axioms;

/// The interpreter family a plugin runs under.
#[derive(Clone, Copy, Debug, PartialEq, Eq, Structural)]
pub enum PluginType {
    Python,
    JavaScript,
}

/// An installed plugin, as the store keeps it.
pub struct Plugin {
    pub id: String,
    pub name: String,
    pub version: String,
    pub plugin_type: PluginType,
    pub description: String,
    pub author: String,
    pub plugin_path: String,
    pub entry_point: String,
    pub enabled: bool,
    pub created_at: i64,
    pub updated_at: i64,
    pub metadata: Option<String>,
    pub parameters: Option<Vec<PluginParameter>>,
}

/// Spec-level mirror of [`Plugin`].
pub ghost struct PluginV {
    pub id: Seq<char>,
    pub name: Seq<char>,
    pub version: Seq<char>,
    pub plugin_type: PluginType,
    pub description: Seq<char>,
    pub author: Seq<char>,
    pub plugin_path: Seq<char>,
    pub entry_point: Seq<char>,
    pub enabled: bool,
    pub created_at: i64,
    pub updated_at: i64,
    pub metadata: Option<Seq<char>>,
    pub parameters: Option<Seq<ParamV>>,
}

impl View for Plugin {
    type V = PluginV;

    open spec fn view(&self) -> PluginV {
        PluginV {
            id: self.id@,
            name: self.name@,
            version: self.version@,
            plugin_type: self.plugin_type,
            description: self.description@,
            author: self.author@,
            plugin_path: self.plugin_path@,
            entry_point: self.entry_point@,
            enabled: self.enabled,
            created_at: self.created_at,
            updated_at: self.updated_at,
            metadata: match &self.metadata {
                Some(m) => Some(m@),
                None => None,
            },
            parameters: match &self.parameters {
                Some(ps) => Some(params_view(ps@)),
                None => None,
            },
        }
    }
}

/// A stored plugin is well-formed: a safe entry point and an acceptable
/// parameter list.
pub open spec fn wf_plugin(p: PluginV) -> bool {
    &&& valid_entry_point(p.entry_point)
    &&& match p.parameters {
        Some(ps) => params_wf(ps),
        None => true,
    }
}

/// A duplicate of a stored plugin record.
pub fn clone_plugin(p: &Plugin) -> (r: Plugin)
    ensures
        r@ == p@,
{
    Plugin {
        id: p.id.clone(),
        name: p.name.clone(),
        version: p.version.clone(),
        plugin_type: p.plugin_type,
        description: p.description.clone(),
        author: p.author.clone(),
        plugin_path: p.plugin_path.clone(),
        entry_point: p.entry_point.clone(),
        enabled: p.enabled,
        created_at: p.created_at,
        updated_at: p.updated_at,
        metadata: match &p.metadata {
            Some(m) => Some(m.clone()),
            None => None,
        },
        parameters: match &p.parameters {
            Some(ps) => Some(clone_params(ps)),
            None => None,
        },
    }
}

/// Reads a runtime-kind tag as the control surface presents it:
/// `"python"` names the Python family, `"javascript"` or `"js"` the
/// JavaScript family; anything else is rejected.
pub fn parse_plugin_type(tag: &str) -> (r: Result<PluginType, AppError>)
    ensures
        tag@ == "python"@ ==> r == Ok::<PluginType, AppError>(PluginType::Python),
        tag@ == "javascript"@ || tag@ == "js"@ ==> r == Ok::<PluginType, AppError>(
            PluginType::JavaScript,
        ),
        tag@ != "python"@ && tag@ != "javascript"@ && tag@ != "js"@ ==> r == Err::<
            PluginType,
            AppError,
        >(AppError::InvalidPluginType),
{
    proof {
        reveal_strlit("python");
        reveal_strlit("javascript");
        reveal_strlit("js");
        assert("python"@.len() == 6);
        assert("javascript"@.len() == 10);
        assert("js"@.len() == 2);
    }
    if str_eq(tag, "python") {
        Ok(PluginType::Python)
    } else if str_eq(tag, "javascript") || str_eq(tag, "js") {
        Ok(PluginType::JavaScript)
    } else {
        Err(AppError::InvalidPluginType)
    }
}

} // verus!
