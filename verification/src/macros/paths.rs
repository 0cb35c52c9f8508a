//! Paths under which generated code names the `dnet` crates and other dependencies.
use vstd::prelude::*;

use super::{MacroError, PathModel, SegmentModel, same_text};

verus! {

/// What looking a crate up among the dependencies of the crate being compiled found.
#[derive(Debug)]
pub enum FoundCrate {
    /// The crate being compiled is that crate.
    Itself,
    /// The crate is a dependency, under this name.
    Name(String),
}

/// Name by which generated code refers to a found crate (`itself` when it is the crate being
/// compiled).
pub open spec fn found_name(found: FoundCrate, itself: Seq<char>) -> Seq<char> {
    match found {
        FoundCrate::Itself => itself,
        FoundCrate::Name(name) => name@,
    }
}

fn name_of(found: &FoundCrate, itself: &str) -> (r: String)
    ensures
        r@ == found_name(*found, itself@),
{
    match found {
        FoundCrate::Itself => itself.to_owned(),
        FoundCrate::Name(name) => name.clone(),
    }
}

/// Segments of the path to a dependency: its name (`crate` when it is the crate being
/// compiled), or [`MacroError::CrateNotFound`] when it is not a dependency.
pub fn crate_path(crate_name: &str, found: &Option<FoundCrate>) -> (r: Result<Vec<String>, MacroError>)
    ensures
        match *found {
            Some(f) => r is Ok && r->Ok_0@.map_values(|s: String| s@) == seq![found_name(f, "crate"@)],
            None => r is Err && r->Err_0@ == super::MacroErrorView::CrateNotFound(crate_name@),
        },
{
    match found {
        Some(f) => {
            let v = vec![name_of(f, "crate")];
            proof {
                assert(v@.map_values(|s: String| s@) =~= seq![found_name(*f, "crate"@)]);
            }
            Ok(v)
        },
        None => Err(MacroError::CrateNotFound(crate_name.to_owned())),
    }
}

/// Segments of the path to the `dnet` part `name` (`base`, `js`, `utils` or `rpc`): through
/// the `dnet` crate when it is a dependency (its root for `base`, the module `name`
/// otherwise), else the crate `dnet-name` itself, else [`MacroError::DnetNotFound`].
/// `dnet` and `dependency` are the lookups of `dnet` and of `dnet-name`.
pub fn dnet_dependency_path(name: &str, dnet: &Option<FoundCrate>, dependency: &Option<FoundCrate>) -> (r: Result<Vec<String>, MacroError>)
    ensures
        match *dnet {
            Some(f) => r is Ok && r->Ok_0@.map_values(|s: String| s@) == if name@ == "base"@ {
                seq![found_name(f, "dnet"@)]
            } else {
                seq![found_name(f, "dnet"@), name@]
            },
            None => match *dependency {
                Some(f) => r is Ok && r->Ok_0@.map_values(|s: String| s@) == seq![found_name(f, "crate"@)],
                None => r is Err && r->Err_0@ == super::MacroErrorView::DnetNotFound("dnet-"@ + name@),
            },
        },
{
    match dnet {
        Some(f) => {
            let ident = name_of(f, "dnet");
            if same_text(&name.to_owned(), "base") {
                let v = vec![ident];
                proof {
                    assert(v@.map_values(|s: String| s@) =~= seq![found_name(*f, "dnet"@)]);
                }
                Ok(v)
            } else {
                let v = vec![ident, name.to_owned()];
                proof {
                    assert(v@.map_values(|s: String| s@) =~= seq![found_name(*f, "dnet"@), name@]);
                }
                Ok(v)
            }
        },
        None => match dependency {
            Some(f) => {
                let v = vec![name_of(f, "crate")];
                proof {
                    assert(v@.map_values(|s: String| s@) =~= seq![found_name(*f, "crate"@)]);
                }
                Ok(v)
            },
            None => {
                let mut dependency_name = "dnet-".to_owned();
                dependency_name.append(name);
                Err(MacroError::DnetNotFound(dependency_name))
            },
        },
    }
}

/// A path made of `segments` without arguments, starting with `::` unless it starts at
/// `crate`.
pub fn make_path(segments: &Vec<String>) -> (r: PathModel)
    requires
        segments@.len() > 0,
    ensures
        r.leading_colon == (segments@[0]@ != "crate"@),
        r.segments@.len() == segments@.len(),
        forall|i: int| 0 <= i < segments@.len()
            ==> #[trigger] r.segments@[i].ident@ == segments@[i]@ && !r.segments@[i].has_arguments,
{
    let leading_colon = !same_text(&segments[0], "crate");
    let mut out: Vec<SegmentModel> = Vec::new();
    let mut i: usize = 0;
    while i < segments.len()
        invariant
            i <= segments.len(),
            out@.len() == i,
            forall|j: int| 0 <= j < i ==> #[trigger] out@[j].ident@ == segments@[j]@ && !out@[j].has_arguments,
        decreases segments.len() - i,
    {
        out.push(SegmentModel { ident: segments[i].clone(), has_arguments: false });
        i = i + 1;
    }
    PathModel { leading_colon, segments: out }
}

} // verus!
