//! Declared plugin parameters: name, type tag, optional default value,
//! and the rules a parameter list must satisfy before a plugin is
//! accepted.

use vstd::prelude::*;

use crate::errors::AppError;
use crate::textspec::{is_blank, is_trimmed, str_eq, str_is_blank, str_is_trimmed};

verus! {

/// The type tag a declared parameter carries.
#[derive(Clone, Copy, Debug, PartialEq, Eq, Structural)]
pub enum ParamType {
    Text,
    Number,
    Flag,
}

/// A concrete parameter value, as a declared default.
pub enum ParamValue {
    Text(String),
    Number(i64),
    Flag(bool),
}

/// Spec-level mirror of [`ParamValue`].
pub ghost enum ParamValueV {
    Text(Seq<char>),
    Number(i64),
    Flag(bool),
}

impl View for ParamValue {
    type V = ParamValueV;

    open spec fn view(&self) -> ParamValueV {
        match self {
            ParamValue::Text(s) => ParamValueV::Text(s@),
            ParamValue::Number(n) => ParamValueV::Number(*n),
            ParamValue::Flag(b) => ParamValueV::Flag(*b),
        }
    }
}

/// One declared parameter of a plugin.
pub struct PluginParameter {
    pub name: String,
    pub param_type: ParamType,
    pub default: Option<ParamValue>,
}

/// Spec-level mirror of [`PluginParameter`].
pub ghost struct ParamV {
    pub name: Seq<char>,
    pub param_type: ParamType,
    pub default: Option<ParamValueV>,
}

impl View for PluginParameter {
    type V = ParamV;

    open spec fn view(&self) -> ParamV {
        ParamV {
            name: self.name@,
            param_type: self.param_type,
            default: match &self.default {
                Some(v) => Some(v@),
                None => None,
            },
        }
    }
}

/// The view of a parameter list.
pub open spec fn params_view(ps: Seq<PluginParameter>) -> Seq<ParamV> {
    ps.map_values(|p: PluginParameter| p@)
}

/// A default value satisfies a type tag when their shapes agree.
pub open spec fn value_matches_type(v: ParamValueV, t: ParamType) -> bool {
    match v {
        ParamValueV::Text(_) => t == ParamType::Text,
        ParamValueV::Number(_) => t == ParamType::Number,
        ParamValueV::Flag(_) => t == ParamType::Flag,
    }
}

/// One parameter is acceptable: a visible, trimmed name, and a default
/// (when present) that satisfies the declared type tag.
pub open spec fn param_ok(p: ParamV) -> bool {
    &&& !is_blank(p.name)
    &&& is_trimmed(p.name)
    &&& match p.default {
        Some(v) => value_matches_type(v, p.param_type),
        None => true,
    }
}

/// A parameter list is acceptable: every entry is acceptable and names
/// are pairwise distinct (case-sensitively).
pub open spec fn params_wf(ps: Seq<ParamV>) -> bool {
    &&& forall|i: int| 0 <= i < ps.len() ==> param_ok(#[trigger] ps[i])
    &&& forall|i: int, j: int| 0 <= i < j < ps.len() ==> (#[trigger] ps[i].name) != (#[trigger] ps[j].name)
}

/// Whether one default value satisfies its declared type tag.
pub fn value_type_checks(v: &ParamValue, t: ParamType) -> (r: bool)
    ensures
        r == value_matches_type(v@, t),
{
    match v {
        ParamValue::Text(_) => matches!(t, ParamType::Text),
        ParamValue::Number(_) => matches!(t, ParamType::Number),
        ParamValue::Flag(_) => matches!(t, ParamType::Flag),
    }
}

/// Screens a declared parameter list: every name must be non-blank,
/// trimmed and unused so far, and every default must satisfy its type
/// tag. An absent list is accepted. Rejection reports the first rule
/// broken, in declaration order.
pub fn validate_parameters(parameters: &Option<Vec<PluginParameter>>) -> (r: Result<
    (),
    AppError,
>)
    ensures
        r is Ok <==> match parameters {
            Some(ps) => params_wf(params_view(ps@)),
            None => true,
        },
        r matches Err(e) ==> e@ matches crate::errors::AppErrorV::Validation { .. },
{
    match parameters {
        Some(ps) => validate_parameter_list(ps),
        None => Ok(()),
    }
}

/// Screens one declared parameter list; see [`validate_parameters`].
pub fn validate_parameter_list(ps: &Vec<PluginParameter>) -> (r: Result<(), AppError>)
    ensures
        r is Ok <==> params_wf(params_view(ps@)),
        r matches Err(e) ==> e@ matches crate::errors::AppErrorV::Validation { .. },
{
    let ghost psv = params_view(ps@);
    let n = ps.len();
    let mut i: usize = 0;
    while i < n
        invariant
            i <= n,
            n == ps@.len(),
            psv == params_view(ps@),
            psv.len() == n,
            forall|k: int| 0 <= k < n ==> #[trigger] psv[k] == ps@[k]@,
            forall|k: int| 0 <= k < n ==> (#[trigger] psv[k].name) == ps@[k].name@,
            forall|k: int| 0 <= k < i ==> param_ok(#[trigger] psv[k]),
            forall|k: int, l: int| 0 <= k < l < i ==> (#[trigger] psv[k].name) != (#[trigger] psv[l].name),
        decreases n - i,
    {
        if str_is_blank(ps[i].name.as_str()) {
            assert(!param_ok(psv[i as int]));
            assert(!params_wf(psv));
            return Err(AppError::Validation(String::from_str("parameter name cannot be blank")));
        }
        if !str_is_trimmed(ps[i].name.as_str()) {
            assert(!param_ok(psv[i as int]));
            assert(!params_wf(psv));
            return Err(
                AppError::Validation(
                    String::from_str("parameter name has leading or trailing whitespace"),
                ),
            );
        }
        let mut j: usize = 0;
        while j < i
            invariant
                j <= i,
                i < n,
                n == ps@.len(),
                psv == params_view(ps@),
                psv.len() == n,
                forall|k: int| 0 <= k < n ==> #[trigger] psv[k] == ps@[k]@,
                forall|k: int| 0 <= k < n ==> (#[trigger] psv[k].name) == ps@[k].name@,
                forall|k: int| 0 <= k < j ==> (#[trigger] psv[k].name) != psv[i as int].name,
            decreases i - j,
        {
            if str_eq(ps[j].name.as_str(), ps[i].name.as_str()) {
                assert(psv[j as int].name == psv[i as int].name);
                assert(!params_wf(psv));
                return Err(AppError::Validation(String::from_str("duplicate parameter name")));
            }
            j += 1;
        }
        if let Some(d) = &ps[i].default {
            if !value_type_checks(d, ps[i].param_type) {
                assert(!param_ok(psv[i as int]));
                assert(!params_wf(psv));
                return Err(
                    AppError::Validation(
                        String::from_str("default value does not match the declared type"),
                    ),
                );
            }
        }
        assert(param_ok(psv[i as int]));
        i += 1;
    }
    Ok(())
}

/// A duplicate of one declared parameter.
pub fn clone_param(p: &PluginParameter) -> (r: PluginParameter)
    ensures
        r@ == p@,
{
    PluginParameter {
        name: p.name.clone(),
        param_type: p.param_type,
        default: match &p.default {
            Some(ParamValue::Text(s)) => Some(ParamValue::Text(s.clone())),
            Some(ParamValue::Number(n)) => Some(ParamValue::Number(*n)),
            Some(ParamValue::Flag(b)) => Some(ParamValue::Flag(*b)),
            None => None,
        },
    }
}

/// A duplicate of a declared parameter list.
pub fn clone_params(ps: &Vec<PluginParameter>) -> (r: Vec<PluginParameter>)
    ensures
        params_view(r@) == params_view(ps@),
{
    let mut out: Vec<PluginParameter> = Vec::new();
    let n = ps.len();
    let mut i: usize = 0;
    while i < n
        invariant
            i <= n,
            n == ps@.len(),
            out@.len() == i,
            forall|k: int| 0 <= k < i ==> (#[trigger] out@[k])@ == ps@[k]@,
        decreases n - i,
    {
        out.push(clone_param(&ps[i]));
        i += 1;
    }
    proof {
        assert(params_view(out@) =~= params_view(ps@));
    }
    out
}

} // verus!
