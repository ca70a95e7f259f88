//! Rewriting the runtime spec file that `crun spec` generated: read its
//! text as JSON, apply the engine's overrides, print it back.

use vstd::prelude::*;
use crate::crun::{runtime_failure, runtime_failure_prefix, RuntimeFailure};
use crate::json::{lookup, JsonValue, JsonView};
use crate::json_text::{
    json_pretty, parse_json, parsed_view, printed_view, spec_json_parse, spec_json_pretty,
};
use crate::oci_spec::{apply_spec_overrides, is_overridable, opt_view, overridable, spec_with_overrides};
use crate::text::string_views;

verus! {

/// Why the spec file could not be rewritten.
#[derive(Debug, PartialEq)]
pub enum SpecEditError {
    /// The file is not JSON; the message gives the parser's error.
    Unparsable(String),
    /// Its `root` or `process` member is neither an object nor null, so the
    /// overrides cannot be assigned into it.
    NotOverridable,
    /// The rewritten spec could not be printed; the message gives why.
    Unprintable(String),
}

/// The view of a `SpecEditError`.
pub enum SpecEditErrorView {
    Unparsable(Seq<char>),
    NotOverridable,
    Unprintable(Seq<char>),
}

impl View for SpecEditError {
    type V = SpecEditErrorView;

    open spec fn view(&self) -> SpecEditErrorView {
        match self {
            SpecEditError::Unparsable(m) => SpecEditErrorView::Unparsable(m@),
            SpecEditError::NotOverridable => SpecEditErrorView::NotOverridable,
            SpecEditError::Unprintable(m) => SpecEditErrorView::Unprintable(m@),
        }
    }
}

/// The view of an overridden document or the refusal.
pub open spec fn overridden_view(r: Result<JsonValue, SpecEditError>) -> Result<JsonView, SpecEditErrorView> {
    match r {
        Ok(v) => Ok(v@),
        Err(e) => Err(e@),
    }
}

/// The view of a rewritten text or the refusal.
pub open spec fn edited_view(r: Result<String, SpecEditError>) -> Result<Seq<char>, SpecEditErrorView> {
    match r {
        Ok(t) => Ok(t@),
        Err(e) => Err(e@),
    }
}

/// From the outcome of reading the file: the overridden spec, or why there
/// is none.
pub open spec fn overridden_spec(
    parsed: Result<JsonView, Seq<char>>,
    rootfs: Seq<char>,
    cmd: Seq<Seq<char>>,
    netns: Option<Seq<char>>,
) -> Result<JsonView, SpecEditErrorView> {
    match parsed {
        Err(m) => Err(SpecEditErrorView::Unparsable(runtime_failure_prefix(RuntimeFailure::ParseConfig) + m)),
        Ok(spec) => if overridable(spec) {
            Ok(spec_with_overrides(spec, rootfs, cmd, netns))
        } else {
            Err(SpecEditErrorView::NotOverridable)
        },
    }
}

/// From the outcome of printing: the new text, or why there is none.
pub open spec fn printed_spec(printed: Result<Seq<char>, Seq<char>>) -> Result<Seq<char>, SpecEditErrorView> {
    match printed {
        Ok(t) => Ok(t),
        Err(m) => Err(SpecEditErrorView::Unprintable(runtime_failure_prefix(RuntimeFailure::SerializeConfig) + m)),
    }
}

/// The rewritten text of the spec file `config`: read, overridden and
/// printed, or the first refusal met.
pub open spec fn edited_config(
    config: Seq<char>,
    rootfs: Seq<char>,
    cmd: Seq<Seq<char>>,
    netns: Option<Seq<char>>,
) -> Result<Seq<char>, SpecEditErrorView> {
    match overridden_spec(spec_json_parse(config), rootfs, cmd, netns) {
        Ok(spec) => printed_spec(spec_json_pretty(spec)),
        Err(e) => Err(e),
    }
}

/// Applies the overrides to the outcome of reading the spec file.
pub fn override_parsed_spec(
    parsed: Result<JsonValue, String>,
    rootfs: &str,
    cmd: &Vec<String>,
    netns: Option<&str>,
) -> (r: Result<JsonValue, SpecEditError>)
    ensures
        overridden_view(r) == overridden_spec(parsed_view(parsed), rootfs@, string_views(cmd@), opt_view(netns)),
{
    match parsed {
        Err(m) => Err(SpecEditError::Unparsable(runtime_failure(RuntimeFailure::ParseConfig, m.as_str()))),
        Ok(spec) => {
            if is_overridable(&spec) {
                Ok(apply_spec_overrides(spec, rootfs, cmd, netns))
            } else {
                Err(SpecEditError::NotOverridable)
            }
        },
    }
}

/// The new text of the spec file from the outcome of printing.
pub fn printed_config(printed: Result<String, String>) -> (r: Result<String, SpecEditError>)
    ensures
        edited_view(r) == printed_spec(printed_view(printed)),
{
    match printed {
        Ok(t) => Ok(t),
        Err(m) => Err(SpecEditError::Unprintable(runtime_failure(RuntimeFailure::SerializeConfig, m.as_str()))),
    }
}

/// Rewrites the text of the spec file: points `root.path` at `rootfs`,
/// sets `process.args` to `cmd`, turns the terminal off and, when `netns`
/// is given, adds the network namespace at that path.
pub fn edit_config_text(
    config: &str,
    rootfs: &str,
    cmd: &Vec<String>,
    netns: Option<&str>,
) -> (r: Result<String, SpecEditError>)
    ensures
        edited_view(r) == edited_config(config@, rootfs@, string_views(cmd@), opt_view(netns)),
{
    match override_parsed_spec(parse_json(config), rootfs, cmd, netns) {
        Ok(spec) => printed_config(json_pretty(spec)),
        Err(e) => Err(e),
    }
}

/// What rewriting the spec file gives: text that is not JSON is refused
/// with the parser's error; a spec whose `root` or `process` is present
/// but neither an object nor `null` is refused; any other spec is printed
/// back with the overrides applied, or refused with the printer's error.
pub proof fn law_spec_file_rewrite(
    config: Seq<char>,
    rootfs: Seq<char>,
    cmd: Seq<Seq<char>>,
    netns: Option<Seq<char>>,
)
    ensures
        spec_json_parse(config) matches Err(m) ==> edited_config(config, rootfs, cmd, netns) == Err::<
            Seq<char>,
            SpecEditErrorView,
        >(SpecEditErrorView::Unparsable("Failed to parse config.json: "@ + m)),
        spec_json_parse(config) matches Ok(j) ==> {
            &&& overridable(j) == ((lookup(j, "root"@) matches Some(r) ==> (r is Null || r is Object))
                && (lookup(j, "process"@) matches Some(p) ==> (p is Null || p is Object)))
            &&& !overridable(j) ==> edited_config(config, rootfs, cmd, netns) == Err::<
                Seq<char>,
                SpecEditErrorView,
            >(SpecEditErrorView::NotOverridable)
            &&& overridable(j) ==> edited_config(config, rootfs, cmd, netns) == match spec_json_pretty(
                spec_with_overrides(j, rootfs, cmd, netns),
            ) {
                Ok(t) => Ok(t),
                Err(m) => Err(SpecEditErrorView::Unprintable("Failed to serialize modified config: "@ + m)),
            }
        },
{
}

} // verus!
