//! Decisions of `#[derive(IntoTransferable)]`.
//!
//! The derive splits an item into its serialized part ("stripped"), the values transferred
//! as they are, and the parts converted into transferable data themselves, and wraps them
//! with a codec parameter.
use vstd::prelude::*;

use super::{AttributeModel, MacroError, MacroErrorView, err_view, has_attribute, names_dnet_attribute, any_attribute,
    is_dnet_attribute, same_text};
use crate::logging::{decimal, decimal_string, digit_char};

verus! {

/// Names of the items generated for an item named `item`.
#[derive(Debug)]
pub struct GeneratedNames {
    /// The struct of the parts converted into transferable data: `{item}IntoTransferables`.
    pub into_transferables: String,
    /// The struct of the serialized part: `{item}Stripped`.
    pub stripped: String,
    /// The transferable wrapper: `{item}Wrapper`.
    pub wrapper: String,
}

/// Names of the items generated for an item named `item`.
pub fn generated_names(item: &str) -> (r: GeneratedNames)
    ensures
        r.into_transferables@ == item@ + "IntoTransferables"@,
        r.stripped@ == item@ + "Stripped"@,
        r.wrapper@ == item@ + "Wrapper"@,
{
    let mut into_transferables = item.to_owned();
    into_transferables.append("IntoTransferables");
    let mut stripped = item.to_owned();
    stripped.append("Stripped");
    let mut wrapper = item.to_owned();
    wrapper.append("Wrapper");
    GeneratedNames { into_transferables, stripped, wrapper }
}

/// Positions of the attributes that are neither `#[transferable]` nor
/// `#[into_transferable]` (with `all` set), or that are not `#[into_transferable]`
/// (with `all` unset), in order.
pub open spec fn kept_attributes(attributes: Seq<AttributeModel>, all: bool) -> Seq<int>
    decreases attributes.len(),
{
    if attributes.len() == 0 {
        Seq::empty()
    } else {
        let before = kept_attributes(attributes.drop_last(), all);
        let path = attributes.last().path;
        let dropped = names_dnet_attribute(path, "into_transferable"@)
            || (all && names_dnet_attribute(path, "transferable"@));
        if dropped { before } else { before.push(attributes.len() - 1) }
    }
}

/// Positions of the attributes kept once the transfer attributes are removed: both
/// `#[transferable]` and `#[into_transferable]` when `all` is set (for API methods and their
/// parameters), only `#[into_transferable]` otherwise (for fields converted themselves).
pub fn retained_attributes(attributes: &Vec<AttributeModel>, all: bool) -> (r: Vec<usize>)
    ensures
        r@.map_values(|p: usize| p as int) == kept_attributes(attributes@, all),
{
    let mut out: Vec<usize> = Vec::new();
    let mut i: usize = 0;
    while i < attributes.len()
        invariant
            i <= attributes.len(),
            out@.map_values(|p: usize| p as int) == kept_attributes(attributes@.take(i as int), all),
        decreases attributes.len() - i,
    {
        proof {
            assert(attributes@.take(i as int + 1).drop_last() =~= attributes@.take(i as int));
        }
        let path = &attributes[i].path;
        let dropped = is_dnet_attribute(path, "into_transferable") || (all && is_dnet_attribute(path, "transferable"));
        if !dropped {
            out.push(i);
        }
        i = i + 1;
    }
    proof {
        assert(attributes@.take(attributes.len() as int) =~= attributes@);
    }
    out
}

/// A field of a struct or enum variant.
#[derive(Debug)]
pub struct FieldModel {
    /// The field's attributes.
    pub attributes: Vec<AttributeModel>,
    /// The field's name; `None` in tuple structs and variants.
    pub ident: Option<String>,
}

/// Where a field goes.
#[derive(Debug, Clone, Copy, PartialEq, Eq, Structural)]
pub enum FieldRole {
    /// Serialized with the stripped part.
    Stripped,
    /// Transferred as it is (`#[transferable]`).
    Transferable,
    /// Converted into transferable data itself (`#[into_transferable]`).
    IntoTransferable,
}

/// Role of a field, or [`MacroErrorView::FieldBothTransferable`] when it has both markers.
pub open spec fn field_role(field: FieldModel) -> Result<FieldRole, MacroErrorView> {
    let transferable = has_attribute(field.attributes@, "transferable"@);
    let into_transferable = has_attribute(field.attributes@, "into_transferable"@);
    if transferable && into_transferable {
        Err(MacroErrorView::FieldBothTransferable)
    } else if transferable {
        Ok(FieldRole::Transferable)
    } else if into_transferable {
        Ok(FieldRole::IntoTransferable)
    } else {
        Ok(FieldRole::Stripped)
    }
}

/// Name of the field at `index`: its own, or `unnamed_field_{index}`.
pub open spec fn field_name(field: FieldModel, index: nat) -> Seq<char> {
    match field.ident {
        Some(name) => name@,
        None => "unnamed_field_"@ + decimal(index),
    }
}

/// A field of a generated struct.
#[derive(Debug, PartialEq, Eq)]
pub enum PlannedField {
    /// The item's field at `index`, keeping its attributes at the positions `attributes`.
    Field {
        /// Position of the field in the item.
        index: usize,
        /// Positions of the attributes the field keeps.
        attributes: Vec<usize>,
    },
    /// The marker field `name: PhantomData<(params, ...)>`.
    PhantomData {
        /// The field's name.
        name: String,
        /// The generic parameters in the marker's tuple, in order.
        params: Vec<String>,
    },
}

/// How the fields of an item are split.
#[derive(Debug)]
pub struct FieldsPlan {
    /// Name of every field, in order.
    pub names: Vec<String>,
    /// Role of every field, in order.
    pub roles: Vec<FieldRole>,
    /// Were the fields unnamed (a tuple struct or variant).
    pub were_unnamed: bool,
    /// Fields of the serialized part: the stripped fields, then the phantom-data marker.
    pub stripped: Vec<PlannedField>,
    /// Names of the stripped fields, in order.
    pub stripped_names: Vec<String>,
    /// Names of the fields transferred as they are, in order.
    pub transferables_names: Vec<String>,
    /// Fields of the part converted into transferable data: those fields, then the
    /// phantom-data marker, whose tuple adds the codec parameter.
    pub into_transferables: Vec<PlannedField>,
    /// Names of the fields converted into transferable data, in order.
    pub into_transferables_names: Vec<String>,
}

/// Positions, in order, of the roles equal to `role`.
pub open spec fn with_role(roles: Seq<FieldRole>, role: FieldRole) -> Seq<int>
    decreases roles.len(),
{
    if roles.len() == 0 {
        Seq::empty()
    } else {
        let before = with_role(roles.drop_last(), role);
        if roles.last() == role { before.push(roles.len() - 1) } else { before }
    }
}

/// `f` is the item's field at `index`, without its `#[into_transferable]` attributes.
pub open spec fn is_planned_field(f: PlannedField, fields: Seq<FieldModel>, index: int) -> bool {
    f matches PlannedField::Field { index: i, attributes }
        && i == index
        && attributes@.map_values(|p: usize| p as int) == kept_attributes(fields[index].attributes@, false)
}

/// `f` is the marker field `_phantom_data__: PhantomData<(params, ...)>`.
pub open spec fn is_phantom_field(f: PlannedField, params: Seq<Seq<char>>) -> bool {
    f matches PlannedField::PhantomData { name, params: ps }
        && name@ == "_phantom_data__"@
        && ps@.map_values(|s: String| s@) == params
}

/// `planned` is the fields at `positions` of `fields`, in order, followed by the marker
/// field over `params`.
pub open spec fn planned_with_marker(planned: Seq<PlannedField>, fields: Seq<FieldModel>, positions: Seq<int>, params: Seq<Seq<char>>) -> bool {
    &&& planned.len() == positions.len() + 1
    &&& forall|k: int| 0 <= k < positions.len() ==> #[trigger] is_planned_field(planned[k], fields, positions[k])
    &&& is_phantom_field(planned[positions.len() as int], params)
}

/// Names at `positions`, in order.
pub open spec fn names_at(names: Seq<Seq<char>>, positions: Seq<int>) -> Seq<Seq<char>> {
    positions.map_values(|p: int| names[p])
}

/// Is `plan` the split of `fields`, with the phantom-data marker over `phantom_params` (and
/// `codec` for the converted part).
pub open spec fn is_fields_plan(fields: Seq<FieldModel>, phantom_params: Seq<Seq<char>>, codec: Seq<char>, plan: FieldsPlan) -> bool {
    let names = plan.names@.map_values(|s: String| s@);
    let roles = plan.roles@;
    &&& plan.names@.len() == fields.len()
    &&& roles.len() == fields.len()
    &&& forall|i: int| 0 <= i < fields.len() ==> {
        &&& (#[trigger] plan.names@[i])@ == field_name(fields[i], i as nat)
        &&& field_role(fields[i]) == Ok::<FieldRole, MacroErrorView>(roles[i])
    }
    &&& plan.were_unnamed == exists|i: int| 0 <= i < fields.len() && (#[trigger] fields[i].ident) is None
    &&& planned_with_marker(plan.stripped@, fields, with_role(roles, FieldRole::Stripped), phantom_params)
    &&& plan.stripped_names@.map_values(|s: String| s@) == names_at(names, with_role(roles, FieldRole::Stripped))
    &&& plan.transferables_names@.map_values(|s: String| s@) == names_at(names, with_role(roles, FieldRole::Transferable))
    &&& planned_with_marker(plan.into_transferables@, fields, with_role(roles, FieldRole::IntoTransferable), phantom_params.push(codec))
    &&& plan.into_transferables_names@.map_values(|s: String| s@) == names_at(names, with_role(roles, FieldRole::IntoTransferable))
}

proof fn lemma_with_role_push(roles: Seq<FieldRole>, r: FieldRole, role: FieldRole)
    ensures
        with_role(roles.push(r), role) == if r == role { with_role(roles, role).push(roles.len() as int) } else { with_role(roles, role) },
        forall|k: int| 0 <= k < with_role(roles, role).len() ==> 0 <= #[trigger] with_role(roles, role)[k] < roles.len(),
    decreases roles.len(),
{
    assert(roles.push(r).drop_last() =~= roles);
    if roles.len() > 0 {
        lemma_with_role_push(roles.drop_last(), roles.last(), role);
        assert(roles.drop_last().push(roles.last()) =~= roles);
    }
}

fn copy_names(names: &Vec<String>) -> (r: Vec<String>)
    ensures
        r@.map_values(|s: String| s@) == names@.map_values(|s: String| s@),
{
    let mut r: Vec<String> = Vec::new();
    let mut i: usize = 0;
    while i < names.len()
        invariant
            i <= names.len(),
            r@.map_values(|s: String| s@) == names@.take(i as int).map_values(|s: String| s@),
        decreases names.len() - i,
    {
        let n = names[i].clone();
        assert(n@ == names@[i as int]@);
        let ghost before = r@;
        r.push(n);
        proof {
            assert(names@.take(i as int + 1) =~= names@.take(i as int).push(names@[i as int]));
            assert(r@.map_values(|s: String| s@) =~= before.map_values(|s: String| s@).push(n@));
            assert(r@.map_values(|s: String| s@) =~= names@.take(i as int + 1).map_values(|s: String| s@));
        }
        i = i + 1;
    }
    proof {
        assert(names@.take(names.len() as int) =~= names@);
    }
    r
}

fn phantom_field(params: &Vec<String>, codec: Option<&str>) -> (f: PlannedField)
    ensures
        is_phantom_field(f, match codec {
            Some(c) => params@.map_values(|s: String| s@).push(c@),
            None => params@.map_values(|s: String| s@),
        }),
{
    let mut ps = copy_names(params);
    match codec {
        Some(c) => {
            let ghost before = ps@;
            ps.push(c.to_owned());
            proof {
                assert(ps@.map_values(|s: String| s@) =~= before.map_values(|s: String| s@).push(c@));
            }
        },
        None => {},
    }
    PlannedField::PhantomData { name: "_phantom_data__".to_owned(), params: ps }
}

/// Split the fields of an item by their markers, naming unnamed fields by position; a field
/// marked both `#[transferable]` and `#[into_transferable]` is refused (the first such field
/// decides). The serialized part and the converted part each end with a phantom-data marker
/// over `phantom_params`; the converted part's marker adds `codec_param`.
pub fn process_fields(fields: &Vec<FieldModel>, phantom_params: &Vec<String>, codec_param: &str) -> (r: Result<FieldsPlan, MacroError>)
    ensures
        (exists|i: int| 0 <= i < fields@.len() && (#[trigger] field_role(fields@[i])) is Err)
            ==> err_view(r) == Err::<FieldsPlan, MacroErrorView>(MacroErrorView::FieldBothTransferable),
        (forall|i: int| 0 <= i < fields@.len() ==> (#[trigger] field_role(fields@[i])) is Ok) ==> {
            &&& r is Ok
            &&& is_fields_plan(fields@, phantom_params@.map_values(|s: String| s@), codec_param@, r->Ok_0)
        },
{
    let mut names: Vec<String> = Vec::new();
    let mut roles: Vec<FieldRole> = Vec::new();
    let mut were_unnamed = false;
    let mut stripped: Vec<PlannedField> = Vec::new();
    let mut stripped_names: Vec<String> = Vec::new();
    let mut transferables_names: Vec<String> = Vec::new();
    let mut into_transferables: Vec<PlannedField> = Vec::new();
    let mut into_transferables_names: Vec<String> = Vec::new();
    let mut i: usize = 0;
    while i < fields.len()
        invariant
            i <= fields.len(),
            names@.len() == i,
            roles@.len() == i,
            forall|j: int| 0 <= j < i ==> (#[trigger] names@[j])@ == field_name(fields@[j], j as nat),
            forall|j: int| 0 <= j < i ==> #[trigger] field_role(fields@[j]) == Ok::<FieldRole, MacroErrorView>(roles@[j]),
            were_unnamed == exists|j: int| 0 <= j < i && (#[trigger] fields@[j].ident) is None,
            stripped@.len() == with_role(roles@, FieldRole::Stripped).len(),
            forall|k: int| 0 <= k < stripped@.len()
                ==> #[trigger] is_planned_field(stripped@[k], fields@, with_role(roles@, FieldRole::Stripped)[k]),
            into_transferables@.len() == with_role(roles@, FieldRole::IntoTransferable).len(),
            forall|k: int| 0 <= k < into_transferables@.len()
                ==> #[trigger] is_planned_field(into_transferables@[k], fields@, with_role(roles@, FieldRole::IntoTransferable)[k]),
            stripped_names@.map_values(|s: String| s@)
                == names_at(names@.map_values(|s: String| s@), with_role(roles@, FieldRole::Stripped)),
            transferables_names@.map_values(|s: String| s@)
                == names_at(names@.map_values(|s: String| s@), with_role(roles@, FieldRole::Transferable)),
            into_transferables_names@.map_values(|s: String| s@)
                == names_at(names@.map_values(|s: String| s@), with_role(roles@, FieldRole::IntoTransferable)),
        decreases fields.len() - i,
    {
        let field = &fields[i];
        let name = match &field.ident {
            Some(name) => name.clone(),
            None => {
                were_unnamed = true;
                let mut name = "unnamed_field_".to_owned();
                let index = decimal_string(i);
                name.append(index.as_str());
                name
            },
        };
        let transferable = any_attribute(&field.attributes, "transferable");
        let into_transferable = any_attribute(&field.attributes, "into_transferable");
        let role = if transferable && into_transferable {
            assert(field_role(fields@[i as int]) is Err);
            return Err(MacroError::FieldBothTransferable);
        } else if transferable {
            FieldRole::Transferable
        } else if into_transferable {
            FieldRole::IntoTransferable
        } else {
            FieldRole::Stripped
        };
        assert(name@ == field_name(fields@[i as int], i as nat));
        assert(field_role(fields@[i as int]) == Ok::<FieldRole, MacroErrorView>(role));
        let ghost old_roles = roles@;
        let ghost old_names = names@.map_values(|s: String| s@);
        let ghost old_stripped = stripped@;
        let ghost old_into = into_transferables@;
        let ghost old_sn = stripped_names@.map_values(|s: String| s@);
        let ghost old_tn = transferables_names@.map_values(|s: String| s@);
        let ghost old_in = into_transferables_names@.map_values(|s: String| s@);
        proof {
            lemma_with_role_push(old_roles, role, FieldRole::Stripped);
            lemma_with_role_push(old_roles, role, FieldRole::Transferable);
            lemma_with_role_push(old_roles, role, FieldRole::IntoTransferable);
        }
        match role {
            FieldRole::Stripped => {
                let attributes = retained_attributes(&field.attributes, false);
                stripped.push(PlannedField::Field { index: i, attributes });
                stripped_names.push(name.clone());
            },
            FieldRole::Transferable => {
                transferables_names.push(name.clone());
            },
            FieldRole::IntoTransferable => {
                let attributes = retained_attributes(&field.attributes, false);
                into_transferables.push(PlannedField::Field { index: i, attributes });
                into_transferables_names.push(name.clone());
            },
        }
        names.push(name);
        roles.push(role);
        proof {
            let new_names = names@.map_values(|s: String| s@);
            assert(new_names =~= old_names.push(name@));
            assert(roles@ == old_roles.push(role));
            assert forall|q: FieldRole| true implies names_at(new_names, #[trigger] with_role(old_roles, q))
                =~= names_at(old_names, with_role(old_roles, q)) by {
                lemma_with_role_push(old_roles, role, q);
            }
            if role == FieldRole::Stripped {
                assert(stripped_names@.map_values(|s: String| s@) =~= old_sn.push(name@));
                assert(names_at(new_names, with_role(roles@, FieldRole::Stripped))
                    =~= names_at(new_names, with_role(old_roles, FieldRole::Stripped)).push(name@));
                assert forall|k: int| 0 <= k < stripped@.len()
                    implies #[trigger] is_planned_field(stripped@[k], fields@, with_role(roles@, FieldRole::Stripped)[k]) by {
                    if k < old_stripped.len() {
                        assert(stripped@[k] == old_stripped[k]);
                    }
                }
            } else if role == FieldRole::Transferable {
                assert(transferables_names@.map_values(|s: String| s@) =~= old_tn.push(name@));
                assert(names_at(new_names, with_role(roles@, FieldRole::Transferable))
                    =~= names_at(new_names, with_role(old_roles, FieldRole::Transferable)).push(name@));
            } else {
                assert(into_transferables_names@.map_values(|s: String| s@) =~= old_in.push(name@));
                assert(names_at(new_names, with_role(roles@, FieldRole::IntoTransferable))
                    =~= names_at(new_names, with_role(old_roles, FieldRole::IntoTransferable)).push(name@));
                assert forall|k: int| 0 <= k < into_transferables@.len()
                    implies #[trigger] is_planned_field(into_transferables@[k], fields@, with_role(roles@, FieldRole::IntoTransferable)[k]) by {
                    if k < old_into.len() {
                        assert(into_transferables@[k] == old_into[k]);
                    }
                }
            }
        }
        i = i + 1;
    }
    let ghost sp = with_role(roles@, FieldRole::Stripped);
    let ghost ip = with_role(roles@, FieldRole::IntoTransferable);
    let ghost old_stripped = stripped@;
    let ghost old_into = into_transferables@;
    stripped.push(phantom_field(phantom_params, None));
    into_transferables.push(phantom_field(phantom_params, Some(codec_param)));
    proof {
        assert forall|k: int| 0 <= k < sp.len() implies #[trigger] is_planned_field(stripped@[k], fields@, sp[k]) by {
            assert(stripped@[k] == old_stripped[k]);
        }
        assert forall|k: int| 0 <= k < ip.len() implies #[trigger] is_planned_field(into_transferables@[k], fields@, ip[k]) by {
            assert(into_transferables@[k] == old_into[k]);
        }
    }
    assert forall|j: int| 0 <= j < fields@.len() implies (#[trigger] field_role(fields@[j])) is Ok by {}
    Ok(FieldsPlan {
        names,
        roles,
        were_unnamed,
        stripped,
        stripped_names,
        transferables_names,
        into_transferables,
        into_transferables_names,
    })
}

/// An argument of a `WrapperLikeTransferable<..>` bound.
#[derive(Debug)]
pub enum CodecArgumentModel {
    /// A type that is a plain name (one segment, no arguments, no qualified self).
    SimpleType(String),
    /// Any other type.
    OtherType,
    /// A lifetime, constant or other argument.
    Other,
}

/// Arguments of the last segment of a bound's path.
#[derive(Debug)]
pub enum BoundArgumentsModel {
    /// No `<...>` arguments.
    NotAngleBracketed,
    /// `<...>` arguments.
    AngleBracketed(Vec<CodecArgumentModel>),
}

/// The last segment of the path of a trait bound in a `where` clause.
#[derive(Debug)]
pub struct LastSegmentModel {
    /// The segment's identifier.
    pub ident: String,
    /// The segment's arguments.
    pub arguments: BoundArgumentsModel,
}

/// Codec named by one `WrapperLikeTransferable<..>` bound, if it names one plainly.
pub open spec fn bound_codec(segment: LastSegmentModel) -> Result<Seq<char>, MacroErrorView> {
    match segment.arguments {
        BoundArgumentsModel::NotAngleBracketed => Err(MacroErrorView::CodecBoundArity),
        BoundArgumentsModel::AngleBracketed(arguments) => if arguments@.len() == 1 {
            match arguments@[0] {
                CodecArgumentModel::SimpleType(name) => Ok(name@),
                CodecArgumentModel::OtherType => Err(MacroErrorView::CodecBoundNotSimple),
                CodecArgumentModel::Other => Err(MacroErrorView::CodecBoundArity),
            }
        } else {
            Err(MacroErrorView::CodecBoundArity)
        },
    }
}

/// Codec parameter named by the trait bounds `segments` of a `where` clause, read in order:
/// only `WrapperLikeTransferable` bounds count, each must name one plain type, and all must
/// name the same.
pub open spec fn codec_of(segments: Seq<LastSegmentModel>) -> Result<Option<Seq<char>>, MacroErrorView>
    decreases segments.len(),
{
    if segments.len() == 0 {
        Ok(None)
    } else {
        let before = codec_of(segments.drop_last());
        let last = segments.last();
        if before is Err || last.ident@ != "WrapperLikeTransferable"@ {
            before
        } else {
            match bound_codec(last) {
                Err(e) => Err(e),
                Ok(name) => match before->Ok_0 {
                    None => Ok(Some(name)),
                    Some(existing) => if existing == name {
                        before
                    } else {
                        Err(MacroErrorView::ConflictingCodecs(existing, name))
                    },
                },
            }
        }
    }
}

proof fn lemma_codec_failure_stays(segments: Seq<LastSegmentModel>, k: int)
    requires
        0 <= k <= segments.len(),
        codec_of(segments.take(k)) is Err,
    ensures
        codec_of(segments) == codec_of(segments.take(k)),
    decreases segments.len() - k,
{
    if k < segments.len() {
        assert(segments.take(k + 1).drop_last() =~= segments.take(k));
        lemma_codec_failure_stays(segments, k + 1);
    } else {
        assert(segments.take(k) =~= segments);
    }
}

/// Codec parameter that the item's `where` clause names through `WrapperLikeTransferable`
/// bounds, given the last segments of the clause's trait bounds in order; `None` when no such
/// bound is there.
pub fn extract_codec_param_name(segments: &Vec<LastSegmentModel>) -> (r: Result<Option<String>, MacroError>)
    ensures
        match codec_of(segments@) {
            Ok(None) => r == Ok::<Option<String>, MacroError>(None),
            Ok(Some(name)) => r is Ok && r->Ok_0 is Some && r->Ok_0->Some_0@ == name,
            Err(e) => r is Err && r->Err_0@ == e,
        },
{
    let mut found: Option<String> = None;
    let mut i: usize = 0;
    while i < segments.len()
        invariant
            i <= segments.len(),
            codec_of(segments@.take(i as int)) is Ok,
            match codec_of(segments@.take(i as int))->Ok_0 {
                None => found is None,
                Some(name) => found is Some && found->Some_0@ == name,
            },
        decreases segments.len() - i,
    {
        proof {
            assert(segments@.take(i as int + 1).drop_last() =~= segments@.take(i as int));
            assert(segments@.take(i as int + 1).last() == segments@[i as int]);
        }
        let segment = &segments[i];
        if same_text(&segment.ident, "WrapperLikeTransferable") {
            let name = match &segment.arguments {
                BoundArgumentsModel::NotAngleBracketed => None,
                BoundArgumentsModel::AngleBracketed(arguments) => if arguments.len() == 1 {
                    match &arguments[0] {
                        CodecArgumentModel::SimpleType(name) => Some(Ok(name.clone())),
                        CodecArgumentModel::OtherType => Some(Err(MacroError::CodecBoundNotSimple)),
                        CodecArgumentModel::Other => None,
                    }
                } else {
                    None
                },
            };
            let name = match name {
                None => {
                    proof {
                        lemma_codec_failure_stays(segments@, i as int + 1);
                    }
                    return Err(MacroError::CodecBoundArity);
                },
                Some(Err(e)) => {
                    proof {
                        lemma_codec_failure_stays(segments@, i as int + 1);
                    }
                    return Err(e);
                },
                Some(Ok(name)) => name,
            };
            match &found {
                None => {
                    found = Some(name);
                },
                Some(existing) => {
                    if !existing.eq(&name) {
                        let existing = existing.clone();
                        proof {
                            lemma_codec_failure_stays(segments@, i as int + 1);
                        }
                        return Err(MacroError::ConflictingCodecs(existing, name));
                    }
                },
            }
        }
        i = i + 1;
    }
    proof {
        assert(segments@.take(segments.len() as int) =~= segments@);
    }
    Ok(found)
}

/// The `k`-th name tried for a new generic parameter (from one): the desired name, then the
/// desired name followed by 2, 3, ...
pub open spec fn candidate(desired: Seq<char>, k: nat) -> Seq<char> {
    if k <= 1 { desired } else { desired + decimal(k) }
}

proof fn lemma_decimal_nonempty(n: nat)
    ensures
        decimal(n).len() >= 1,
        n >= 10 ==> decimal(n).len() >= 2,
    decreases n,
{
    if n >= 10 {
        lemma_decimal_nonempty(n / 10);
    }
}

proof fn lemma_digit_char_injective(a: nat, b: nat)
    requires
        a < 10,
        b < 10,
        digit_char(a) == digit_char(b),
    ensures
        a == b,
{
}

/// Different numbers are written differently.
proof fn lemma_decimal_injective(a: nat, b: nat)
    requires
        decimal(a) == decimal(b),
    ensures
        a == b,
    decreases a,
{
    lemma_decimal_nonempty(a);
    lemma_decimal_nonempty(b);
    if a < 10 && b < 10 {
        assert(decimal(a)[0] == digit_char(a));
        assert(decimal(b)[0] == digit_char(b));
        lemma_digit_char_injective(a, b);
    } else if a >= 10 && b >= 10 {
        let da = decimal(a);
        let db = decimal(b);
        assert(da.last() == digit_char(a % 10));
        assert(db.last() == digit_char(b % 10));
        lemma_digit_char_injective(a % 10, b % 10);
        assert(da.drop_last() =~= decimal(a / 10));
        assert(db.drop_last() =~= decimal(b / 10));
        lemma_decimal_injective(a / 10, b / 10);
    } else {
        assert(decimal(a).len() != decimal(b).len());
    }
}

/// Different tries are different names.
proof fn lemma_candidate_injective(desired: Seq<char>, a: nat, b: nat)
    requires
        1 <= a,
        1 <= b,
        candidate(desired, a) == candidate(desired, b),
    ensures
        a == b,
{
    if a >= 2 {
        lemma_decimal_nonempty(a);
    }
    if b >= 2 {
        lemma_decimal_nonempty(b);
    }
    if a >= 2 && b >= 2 {
        let ca = candidate(desired, a);
        let cb = candidate(desired, b);
        assert(ca.subrange(desired.len() as int, ca.len() as int) =~= decimal(a));
        assert(cb.subrange(desired.len() as int, cb.len() as int) =~= decimal(b));
        lemma_decimal_injective(a, b);
    } else if a >= 2 || b >= 2 {
        assert(candidate(desired, a).len() != candidate(desired, b).len());
    }
}

/// Only as many different tries as there are names can all be taken.
proof fn lemma_candidates_fit(names: Seq<Seq<char>>, desired: Seq<char>, count: nat)
    requires
        forall|j: nat| 1 <= j <= count ==> names.contains(#[trigger] candidate(desired, j)),
    ensures
        count <= names.len(),
{
    let tries = Seq::new(count, |i: int| candidate(desired, (i + 1) as nat));
    assert forall|i: int, j: int| 0 <= i < tries.len() && 0 <= j < tries.len() && i != j implies tries[i] != tries[j] by {
        if tries[i] == tries[j] {
            lemma_candidate_injective(desired, (i + 1) as nat, (j + 1) as nat);
        }
    }
    assert(tries.no_duplicates());
    tries.unique_seq_to_set();
    assert forall|c: Seq<char>| tries.to_set().contains(c) implies names.to_set().contains(c) by {
        let i = choose|i: int| 0 <= i < tries.len() && tries[i] == c;
        assert(names.contains(candidate(desired, (i + 1) as nat)));
    }
    names.lemma_cardinality_of_set();
    vstd::seq_lib::seq_to_set_is_finite(names);
    vstd::set_lib::lemma_len_subset(tries.to_set(), names.to_set());
}

fn taken(names: &Vec<String>, name: &String) -> (r: bool)
    ensures
        r == names@.map_values(|s: String| s@).contains(name@),
{
    let ghost views = names@.map_values(|s: String| s@);
    let mut i: usize = 0;
    while i < names.len()
        invariant
            i <= names.len(),
            views == names@.map_values(|s: String| s@),
            forall|j: int| 0 <= j < i ==> views[j] != name@,
        decreases names.len() - i,
    {
        if names[i].eq(name) {
            assert(views[i as int] == name@);
            return true;
        }
        i = i + 1;
    }
    false
}

/// Name for a new generic parameter that none of the item's parameters `names` (lifetimes,
/// types and constants) already has: `desired` if it is free, else the first free of
/// `desired2`, `desired3`, ...
pub fn actual_new_param_name(names: &Vec<String>, desired: &str) -> (r: String)
    requires
        names@.len() + 2 <= usize::MAX,
    ensures
        exists|k: nat| {
            &&& k >= 1
            &&& r@ == candidate(desired@, k)
            &&& !names@.map_values(|s: String| s@).contains(r@)
            &&& forall|j: nat| 1 <= j < k ==> names@.map_values(|s: String| s@).contains(#[trigger] candidate(desired@, j))
        },
{
    let ghost views = names@.map_values(|s: String| s@);
    let mut index: usize = 2;
    let mut tested = desired.to_owned();
    while taken(names, &tested)
        invariant
            2 <= index <= names@.len() + 2,
            names@.len() + 2 <= usize::MAX,
            views == names@.map_values(|s: String| s@),
            tested@ == candidate(desired@, (index - 1) as nat),
            forall|j: nat| 1 <= j < index - 1 ==> views.contains(#[trigger] candidate(desired@, j)),
        decreases names@.len() + 2 - index,
    {
        proof {
            assert forall|j: nat| 1 <= j <= index - 1 implies views.contains(#[trigger] candidate(desired@, j)) by {
                if j == index - 1 {
                    assert(tested@ == candidate(desired@, j));
                }
            }
            lemma_candidates_fit(views, desired@, (index - 1) as nat);
        }
        let number = decimal_string(index);
        let mut next = desired.to_owned();
        next.append(number.as_str());
        tested = next;
        index = index + 1;
    }
    proof {
        assert(tested@ == candidate(desired@, (index - 1) as nat));
    }
    tested
}

/// Kind of the item `#[derive(IntoTransferable)]` is applied to.
#[derive(Debug, Clone, Copy, PartialEq, Eq, Structural)]
pub enum DataKind {
    /// A struct.
    Struct,
    /// An enum.
    Enum,
    /// A union.
    Union,
}

/// Names and codec parameter of what `#[derive(IntoTransferable)]` generates.
#[derive(Debug)]
pub struct TransferablePlan {
    /// Names of the generated items.
    pub names: GeneratedNames,
    /// The codec parameter of the wrapper.
    pub codec: String,
    /// Is the codec parameter a new parameter, added to the wrapper's generics with a
    /// `Codec` bound (rather than one the item already has).
    pub append_codec: bool,
}

/// Is `name` the first free candidate for a new parameter named after `desired`.
pub open spec fn first_free(names: Seq<Seq<char>>, desired: Seq<char>, name: Seq<char>) -> bool {
    exists|k: nat| {
        &&& k >= 1
        &&& name == candidate(desired, k)
        &&& !names.contains(name)
        &&& forall|j: nat| 1 <= j < k ==> names.contains(#[trigger] candidate(desired, j))
    }
}

/// Plan of `#[derive(IntoTransferable)]` on an item named `item` of kind `kind`, with generic
/// parameters named `params` and the trait bounds `bounds` of its `where` clause: the codec
/// is the one the bounds name, else a new parameter `C` (renamed if taken); unions are refused.
pub fn into_transferable_plan(item: &str, params: &Vec<String>, bounds: &Vec<LastSegmentModel>, kind: DataKind) -> (r: Result<TransferablePlan, MacroError>)
    requires
        params@.len() + 2 <= usize::MAX,
    ensures
        codec_of(bounds@) is Err ==> r is Err && r->Err_0@ == codec_of(bounds@)->Err_0,
        codec_of(bounds@) is Ok && kind == DataKind::Union
            ==> r is Err && r->Err_0@ == MacroErrorView::UnionNotSupported,
        codec_of(bounds@) is Ok && kind != DataKind::Union ==> {
            &&& r is Ok
            &&& r->Ok_0.names.into_transferables@ == item@ + "IntoTransferables"@
            &&& r->Ok_0.names.stripped@ == item@ + "Stripped"@
            &&& r->Ok_0.names.wrapper@ == item@ + "Wrapper"@
            &&& match codec_of(bounds@)->Ok_0 {
                Some(name) => r->Ok_0.codec@ == name && !r->Ok_0.append_codec,
                None => first_free(params@.map_values(|s: String| s@), "C"@, r->Ok_0.codec@) && r->Ok_0.append_codec,
            }
        },
{
    let names = generated_names(item);
    let (codec, append_codec) = match extract_codec_param_name(bounds) {
        Err(e) => return Err(e),
        Ok(Some(name)) => (name, false),
        Ok(None) => (actual_new_param_name(params, "C"), true),
    };
    match kind {
        DataKind::Union => Err(MacroError::UnionNotSupported),
        _ => Ok(TransferablePlan { names, codec, append_codec }),
    }
}

/// Does some field go converted into transferable data itself (so that the wrapper carries
/// an `IntoTransferables` part).
pub fn has_into_transferables(roles: &Vec<FieldRole>) -> (r: bool)
    ensures
        r == exists|i: int| 0 <= i < roles@.len() && roles@[i] == FieldRole::IntoTransferable,
{
    let mut i: usize = 0;
    while i < roles.len()
        invariant
            i <= roles.len(),
            forall|j: int| 0 <= j < i ==> roles@[j] != FieldRole::IntoTransferable,
        decreases roles.len() - i,
    {
        if roles[i] == FieldRole::IntoTransferable {
            return true;
        }
        i = i + 1;
    }
    false
}

/// Split the fields of every variant of an enum, in order, as [`process_fields`] does with
/// the same marker parameters; the first variant with a field marked both ways is refused.
pub fn process_variants(variants: &Vec<Vec<FieldModel>>, phantom_params: &Vec<String>, codec_param: &str) -> (r: Result<Vec<FieldsPlan>, MacroError>)
    ensures
        (exists|v: int, i: int| 0 <= v < variants@.len() && 0 <= i < variants@[v]@.len()
            && (#[trigger] field_role(variants@[v]@[i])) is Err)
            ==> err_view(r) == Err::<Vec<FieldsPlan>, MacroErrorView>(MacroErrorView::FieldBothTransferable),
        (forall|v: int, i: int| 0 <= v < variants@.len() && 0 <= i < variants@[v]@.len()
            ==> (#[trigger] field_role(variants@[v]@[i])) is Ok) ==> {
            &&& r is Ok
            &&& r->Ok_0@.len() == variants@.len()
            &&& forall|v: int| 0 <= v < variants@.len()
                ==> is_fields_plan(variants@[v]@, phantom_params@.map_values(|s: String| s@), codec_param@, #[trigger] r->Ok_0@[v])
        },
{
    let mut plans: Vec<FieldsPlan> = Vec::new();
    let mut v: usize = 0;
    while v < variants.len()
        invariant
            v <= variants.len(),
            plans@.len() == v,
            forall|w: int, i: int| 0 <= w < v && 0 <= i < variants@[w]@.len() ==> (#[trigger] field_role(variants@[w]@[i])) is Ok,
            forall|w: int| 0 <= w < v
                ==> is_fields_plan(variants@[w]@, phantom_params@.map_values(|s: String| s@), codec_param@, #[trigger] plans@[w]),
        decreases variants.len() - v,
    {
        match process_fields(&variants[v], phantom_params, codec_param) {
            Err(e) => {
                proof {
                    if forall|i: int| 0 <= i < variants@[v as int]@.len() ==> (#[trigger] field_role(variants@[v as int]@[i])) is Ok {
                        assert(false);
                    }
                }
                return Err(e);
            },
            Ok(plan) => {
                plans.push(plan);
            },
        }
        v = v + 1;
    }
    Ok(plans)
}

} // verus!
