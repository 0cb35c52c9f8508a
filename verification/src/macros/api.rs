//! Decisions of the `#[api]` attribute macro about a whole API trait.
use vstd::prelude::*;

use super::{AttributeModel, MacroError, MacroErrorView, MetaModel, err_view, PathModel, has_attribute, names_dnet_attribute,
    any_attribute, is_dnet_attribute, same_text};
use super::methods::{FnArgModel, MethodModel, MethodPlan, RequestShape, TransferMarker, marked_no_ack,
    method_plan, no_ack_error, request_shape, return_type_text, signature_error, stream_output, transfer_marker,
    transferable_attribute, is_stream, is_no_ack, extract_return_type, is_plan_of, is_shape_of};

verus! {

/// Which serde traits the request or response enum derives.
#[derive(Debug, Clone, Copy, PartialEq, Eq, Structural)]
pub struct SerdeConfig {
    /// Derive `Serialize`.
    pub serialize: bool,
    /// Derive `Deserialize`.
    pub deserialize: bool,
}

impl SerdeConfig {
    /// Derive both traits.
    pub fn all() -> (r: Self)
        ensures
            r == (SerdeConfig { serialize: true, deserialize: true }),
    {
        SerdeConfig { serialize: true, deserialize: true }
    }

    /// Derive neither trait.
    pub fn none() -> (r: Self)
        ensures
            r == (SerdeConfig { serialize: false, deserialize: false }),
    {
        SerdeConfig { serialize: false, deserialize: false }
    }
}

impl Default for SerdeConfig {
    fn default() -> (r: Self)
        ensures
            r == (SerdeConfig { serialize: true, deserialize: true }),
    {
        SerdeConfig::all()
    }
}

/// How the request or response enum is serialized.
#[derive(Debug, Clone, Copy, PartialEq, Eq, Structural)]
pub enum SerializationConfig {
    /// With serde, deriving the given traits.
    Serde(SerdeConfig),
    /// Converted into transferable data.
    IntoTransferable,
}

impl Default for SerializationConfig {
    fn default() -> (r: Self)
        ensures
            r == SerializationConfig::Serde(SerdeConfig { serialize: true, deserialize: true }),
    {
        SerializationConfig::Serde(SerdeConfig::all())
    }
}

/// How the request and response enums of an API are serialized.
#[derive(Debug, Clone, Copy, PartialEq, Eq, Structural)]
pub struct ApiSerializationConfig {
    /// Serialization of the request enum.
    pub request: SerializationConfig,
    /// Serialization of the response enum.
    pub response: SerializationConfig,
}

impl Default for ApiSerializationConfig {
    fn default() -> (r: Self)
        ensures
            r == default_config(),
    {
        ApiSerializationConfig { request: SerializationConfig::default(), response: SerializationConfig::default() }
    }
}

/// Serde for both enums, deriving both traits.
pub open spec fn default_config() -> ApiSerializationConfig {
    ApiSerializationConfig {
        request: SerializationConfig::Serde(SerdeConfig { serialize: true, deserialize: true }),
        response: SerializationConfig::Serde(SerdeConfig { serialize: true, deserialize: true }),
    }
}

/// Outcome of reading the parameters of `#[no_serde(..)]`.
pub enum NoSerdeOutcome {
    /// The configurations of the request and response enums.
    Config(SerdeConfig, SerdeConfig),
    /// A parameter is not an identifier.
    NotIdent,
    /// A parameter is not known.
    Unknown(Seq<char>),
}

/// The configurations after applying the parameter `name` to `request` and `response`.
pub open spec fn apply_no_serde(request: SerdeConfig, response: SerdeConfig, name: Seq<char>) -> NoSerdeOutcome {
    if name == "request"@ {
        NoSerdeOutcome::Config(SerdeConfig { serialize: false, deserialize: false }, response)
    } else if name == "response"@ {
        NoSerdeOutcome::Config(request, SerdeConfig { serialize: false, deserialize: false })
    } else if name == "request_serialize"@ {
        NoSerdeOutcome::Config(SerdeConfig { serialize: false, ..request }, response)
    } else if name == "request_deserialize"@ {
        NoSerdeOutcome::Config(SerdeConfig { deserialize: false, ..request }, response)
    } else if name == "response_serialize"@ {
        NoSerdeOutcome::Config(request, SerdeConfig { serialize: false, ..response })
    } else if name == "response_deserialize"@ {
        NoSerdeOutcome::Config(request, SerdeConfig { deserialize: false, ..response })
    } else {
        NoSerdeOutcome::Unknown(name)
    }
}

/// Outcome of the parameters `paths` of `#[no_serde(..)]`, read in order starting from
/// everything enabled; the first bad parameter decides the error.
pub open spec fn no_serde_outcome(paths: Seq<PathModel>) -> NoSerdeOutcome
    decreases paths.len(),
{
    if paths.len() == 0 {
        NoSerdeOutcome::Config(SerdeConfig { serialize: true, deserialize: true }, SerdeConfig { serialize: true, deserialize: true })
    } else {
        match no_serde_outcome(paths.drop_last()) {
            NoSerdeOutcome::Config(request, response) => {
                let last = paths.last();
                if !last.leading_colon && last.segments@.len() == 1 && !last.segments@[0].has_arguments {
                    apply_no_serde(request, response, last.segments@[0].ident@)
                } else {
                    NoSerdeOutcome::NotIdent
                }
            },
            failed => failed,
        }
    }
}

/// What `#[no_serde]` written with `meta` gives: a bare `#[no_serde]` disables serde on
/// both enums, a list disables what its parameters name, and `key = value` is refused.
pub open spec fn no_serde_result(meta: MetaModel) -> Result<ApiSerializationConfig, MacroErrorView> {
    match meta {
        MetaModel::Path => Ok(ApiSerializationConfig {
            request: SerializationConfig::Serde(SerdeConfig { serialize: false, deserialize: false }),
            response: SerializationConfig::Serde(SerdeConfig { serialize: false, deserialize: false }),
        }),
        MetaModel::List(Err(message)) => Err(MacroErrorView::Syntax(message@)),
        MetaModel::List(Ok(paths)) => match no_serde_outcome(paths@) {
            NoSerdeOutcome::Config(request, response) => Ok(ApiSerializationConfig {
                request: SerializationConfig::Serde(request),
                response: SerializationConfig::Serde(response),
            }),
            NoSerdeOutcome::NotIdent => Err(MacroErrorView::ExpectedIdentifier),
            NoSerdeOutcome::Unknown(name) => Err(MacroErrorView::UnknownNoSerdeParameter(name)),
        },
        MetaModel::NameValue => Err(MacroErrorView::NoSerdeKeyValue),
    }
}

impl ApiSerializationConfig {
    /// Configuration that a `#[no_serde]` attribute written with `meta` asks for.
    pub fn from_no_serde_attribute(attribute: &AttributeModel) -> (r: Result<Self, MacroError>)
        ensures
            err_view(r) == no_serde_result(attribute.meta),
    {
        match &attribute.meta {
            MetaModel::Path => Ok(ApiSerializationConfig {
                request: SerializationConfig::Serde(SerdeConfig::none()),
                response: SerializationConfig::Serde(SerdeConfig::none()),
            }),
            MetaModel::List(Err(message)) => Err(MacroError::Syntax(message.clone())),
            MetaModel::List(Ok(paths)) => {
                let mut request = SerdeConfig::all();
                let mut response = SerdeConfig::all();
                let mut i: usize = 0;
                while i < paths.len()
                    invariant
                        i <= paths.len(),
                        attribute.meta == MetaModel::List(Ok::<Vec<PathModel>, String>(*paths)),
                        no_serde_outcome(paths@.take(i as int)) == NoSerdeOutcome::Config(request, response),
                    decreases paths.len() - i,
                {
                    proof {
                        assert(paths@.take(i as int + 1).drop_last() =~= paths@.take(i as int));
                    }
                    let path = &paths[i];
                    proof {
                        assert(paths@.take(i as int + 1).last() == paths@[i as int]);
                    }
                    if path.leading_colon || path.segments.len() != 1 || path.segments[0].has_arguments {
                        proof {
                            assert(no_serde_outcome(paths@.take(i as int + 1)) == NoSerdeOutcome::NotIdent);
                            lemma_no_serde_failure_stays(paths@, i as int + 1);
                        }
                        return Err(MacroError::ExpectedIdentifier);
                    }
                    let name = &path.segments[0].ident;
                    if same_text(name, "request") {
                        request = SerdeConfig::none();
                    } else if same_text(name, "response") {
                        response = SerdeConfig::none();
                    } else if same_text(name, "request_serialize") {
                        request.serialize = false;
                    } else if same_text(name, "request_deserialize") {
                        request.deserialize = false;
                    } else if same_text(name, "response_serialize") {
                        response.serialize = false;
                    } else if same_text(name, "response_deserialize") {
                        response.deserialize = false;
                    } else {
                        let unknown = name.clone();
                        proof {
                            assert(no_serde_outcome(paths@.take(i as int + 1)) == NoSerdeOutcome::Unknown(name@));
                            lemma_no_serde_failure_stays(paths@, i as int + 1);
                        }
                        return Err(MacroError::UnknownNoSerdeParameter(unknown));
                    }
                    i = i + 1;
                }
                proof {
                    assert(paths@.take(paths.len() as int) =~= paths@);
                }
                Ok(ApiSerializationConfig {
                    request: SerializationConfig::Serde(request),
                    response: SerializationConfig::Serde(response),
                })
            },
            MetaModel::NameValue => Err(MacroError::NoSerdeKeyValue),
        }
    }
}

/// Once reading `#[no_serde(..)]` parameters failed, later parameters keep the failure.
proof fn lemma_no_serde_failure_stays(paths: Seq<PathModel>, k: int)
    requires
        0 <= k <= paths.len(),
        !(no_serde_outcome(paths.take(k)) is Config),
    ensures
        no_serde_outcome(paths) == no_serde_outcome(paths.take(k)),
    decreases paths.len() - k,
{
    if k < paths.len() {
        assert(paths.take(k + 1).drop_last() =~= paths.take(k));
        lemma_no_serde_failure_stays(paths, k + 1);
    } else {
        assert(paths.take(k) =~= paths);
    }
}

/// Is `path` a plain identifier (what `#[no_serde(..)]` accepts as a parameter).
pub open spec fn is_plain_ident(path: PathModel) -> bool {
    !path.leading_colon && path.segments@.len() == 1 && !path.segments@[0].has_arguments
}

/// The identifier of a plain path.
pub open spec fn ident_of(path: PathModel) -> Seq<char> {
    path.segments@[0].ident@
}

/// Is `name` one of the six parameters `#[no_serde(..)]` knows.
pub open spec fn is_no_serde_parameter(name: Seq<char>) -> bool {
    ||| name == "request"@
    ||| name == "response"@
    ||| name == "request_serialize"@
    ||| name == "request_deserialize"@
    ||| name == "response_serialize"@
    ||| name == "response_deserialize"@
}

/// Does some parameter among `paths` name `a` or `b`.
pub open spec fn names_either(paths: Seq<PathModel>, a: Seq<char>, b: Seq<char>) -> bool {
    exists|i: int| 0 <= i < paths.len() && (ident_of(#[trigger] paths[i]) == a || ident_of(paths[i]) == b)
}

proof fn lemma_names_either_last(paths: Seq<PathModel>, a: Seq<char>, b: Seq<char>)
    requires
        paths.len() > 0,
    ensures
        names_either(paths, a, b) == (names_either(paths.drop_last(), a, b)
            || ident_of(paths.last()) == a || ident_of(paths.last()) == b),
{
    let prefix = paths.drop_last();
    if names_either(paths, a, b) {
        let i = choose|i: int| 0 <= i < paths.len() && (ident_of(#[trigger] paths[i]) == a || ident_of(paths[i]) == b);
        if i < prefix.len() {
            assert(prefix[i] == paths[i]);
        }
    }
    if names_either(prefix, a, b) {
        let i = choose|i: int| 0 <= i < prefix.len() && (ident_of(#[trigger] prefix[i]) == a || ident_of(prefix[i]) == b);
        assert(prefix[i] == paths[i]);
    }
    if ident_of(paths.last()) == a || ident_of(paths.last()) == b {
        assert(paths[paths.len() - 1] == paths.last());
    }
}

/// `#[no_serde(..)]` law: with known parameters in any number and order, the request enum
/// serializes unless `request` or `request_serialize` is named, deserializes unless `request`
/// or `request_deserialize` is named, and likewise for the response enum; parameters only
/// switch traits off.
pub proof fn lemma_no_serde_switches_off(paths: Seq<PathModel>)
    requires
        forall|i: int| 0 <= i < paths.len()
            ==> is_plain_ident(#[trigger] paths[i]) && is_no_serde_parameter(ident_of(paths[i])),
    ensures
        no_serde_outcome(paths) == NoSerdeOutcome::Config(
            SerdeConfig {
                serialize: !names_either(paths, "request"@, "request_serialize"@),
                deserialize: !names_either(paths, "request"@, "request_deserialize"@),
            },
            SerdeConfig {
                serialize: !names_either(paths, "response"@, "response_serialize"@),
                deserialize: !names_either(paths, "response"@, "response_deserialize"@),
            },
        ),
    decreases paths.len(),
{
    reveal_strlit("request");
    reveal_strlit("response");
    reveal_strlit("request_serialize");
    reveal_strlit("request_deserialize");
    reveal_strlit("response_serialize");
    reveal_strlit("response_deserialize");
    if paths.len() > 0 {
        let prefix = paths.drop_last();
        assert forall|i: int| 0 <= i < prefix.len()
            implies is_plain_ident(#[trigger] prefix[i]) && is_no_serde_parameter(ident_of(prefix[i])) by {
            assert(prefix[i] == paths[i]);
        }
        lemma_no_serde_switches_off(prefix);
        lemma_names_either_last(paths, "request"@, "request_serialize"@);
        lemma_names_either_last(paths, "request"@, "request_deserialize"@);
        lemma_names_either_last(paths, "response"@, "response_serialize"@);
        lemma_names_either_last(paths, "response"@, "response_deserialize"@);
        assert(paths[paths.len() - 1] == paths.last());
        assert(is_plain_ident(paths.last()));
        assert("request"@.len() == 7);
        assert("response"@.len() == 8);
        assert("request_serialize"@.len() == 17);
        assert("request_deserialize"@.len() == 19);
        assert("response_serialize"@.len() == 18);
        assert("response_deserialize"@.len() == 20);
        let name = ident_of(paths.last());
        assert(paths.last().segments@[0].ident@ == name);
        if name == "request"@ {
            assert(name != "response"@ && name != "request_serialize"@ && name != "request_deserialize"@);
            assert(name != "response_serialize"@ && name != "response_deserialize"@);
        } else if name == "response"@ {
            assert(name != "request_serialize"@ && name != "request_deserialize"@);
            assert(name != "response_serialize"@ && name != "response_deserialize"@);
        } else if name == "request_serialize"@ {
            assert(name != "request_deserialize"@ && name != "response_serialize"@ && name != "response_deserialize"@);
        } else if name == "request_deserialize"@ {
            assert(name != "response_serialize"@ && name != "response_deserialize"@);
        } else if name == "response_serialize"@ {
            assert(name != "response_deserialize"@);
        }
    }
}

/// Positions of the `#[no_serde]` attributes, in order.
pub open spec fn no_serde_positions(attributes: Seq<AttributeModel>) -> Seq<int>
    decreases attributes.len(),
{
    if attributes.len() == 0 {
        Seq::empty()
    } else {
        let before = no_serde_positions(attributes.drop_last());
        if names_dnet_attribute(attributes.last().path, "no_serde"@) {
            before.push(attributes.len() - 1)
        } else {
            before
        }
    }
}

/// The `#[no_serde]` attribute among `attributes`, by position, if there is one;
/// [`MacroError::MultipleNoSerde`] when there are several.
pub fn no_serde_attribute(attributes: &Vec<AttributeModel>) -> (r: Result<Option<usize>, MacroError>)
    ensures
        no_serde_positions(attributes@).len() == 0 ==> r == Ok::<Option<usize>, MacroError>(None),
        no_serde_positions(attributes@).len() == 1
            ==> r is Ok && r->Ok_0 is Some && r->Ok_0->Some_0 == no_serde_positions(attributes@)[0],
        no_serde_positions(attributes@).len() > 1 ==> r == Err::<Option<usize>, MacroError>(MacroError::MultipleNoSerde),
        r matches Ok(Some(p)) ==> p < attributes@.len(),
        forall|k: int| 0 <= k < no_serde_positions(attributes@).len()
            ==> 0 <= #[trigger] no_serde_positions(attributes@)[k] < attributes@.len(),
{
    let mut found: Option<usize> = None;
    let mut count: usize = 0;
    let mut i: usize = 0;
    while i < attributes.len()
        invariant
            i <= attributes.len(),
            count == no_serde_positions(attributes@.take(i as int)).len(),
            count <= i,
            count == 0 ==> found is None,
            count > 0 ==> found is Some && found->Some_0 == no_serde_positions(attributes@.take(i as int))[0],
            forall|k: int| 0 <= k < count ==> 0 <= #[trigger] no_serde_positions(attributes@.take(i as int))[k] < i,
        decreases attributes.len() - i,
    {
        proof {
            assert(attributes@.take(i as int + 1).drop_last() =~= attributes@.take(i as int));
        }
        if is_dnet_attribute(&attributes[i].path, "no_serde") {
            if count == 0 {
                found = Some(i);
            }
            count = count + 1;
        }
        i = i + 1;
    }
    proof {
        assert(attributes@.take(attributes.len() as int) =~= attributes@);
    }
    if count == 0 {
        Ok(None)
    } else if count == 1 {
        Ok(found)
    } else {
        Err(MacroError::MultipleNoSerde)
    }
}

/// Does the method or one of its parameters carry `#[transferable]` or `#[into_transferable]`.
pub open spec fn method_uses_transfer(method: MethodModel) -> bool {
    ||| has_attribute(method.attributes@, "transferable"@)
    ||| has_attribute(method.attributes@, "into_transferable"@)
    ||| exists|j: int| 0 <= j < method.inputs@.len() && #[trigger] argument_uses_transfer(method.inputs@[j])
}

/// Does a parameter carry `#[transferable]` or `#[into_transferable]`.
pub open spec fn argument_uses_transfer(argument: FnArgModel) -> bool {
    match argument {
        FnArgModel::Typed { attributes, .. } =>
            has_attribute(attributes@, "transferable"@) || has_attribute(attributes@, "into_transferable"@),
        FnArgModel::Receiver => false,
    }
}

fn method_has_transferable(method: &MethodModel) -> (r: bool)
    ensures
        r == method_uses_transfer(*method),
{
    if any_attribute(&method.attributes, "transferable") || any_attribute(&method.attributes, "into_transferable") {
        return true;
    }
    let mut j: usize = 0;
    while j < method.inputs.len()
        invariant
            j <= method.inputs.len(),
            forall|k: int| 0 <= k < j ==> !argument_uses_transfer(#[trigger] method.inputs@[k]),
        decreases method.inputs.len() - j,
    {
        if let FnArgModel::Typed { attributes, .. } = &method.inputs[j] {
            if any_attribute(attributes, "transferable") || any_attribute(attributes, "into_transferable") {
                assert(argument_uses_transfer(method.inputs@[j as int]));
                return true;
            }
        }
        j = j + 1;
    }
    false
}

/// Does some method of the API, or one of its parameters, carry `#[transferable]` or
/// `#[into_transferable]`.
pub fn has_methods_with_transferable(methods: &Vec<MethodModel>) -> (r: bool)
    ensures
        r == exists|i: int| 0 <= i < methods@.len() && #[trigger] method_uses_transfer(methods@[i]),
{
    let mut i: usize = 0;
    while i < methods.len()
        invariant
            i <= methods.len(),
            forall|k: int| 0 <= k < i ==> !method_uses_transfer(#[trigger] methods@[k]),
        decreases methods.len() - i,
    {
        if method_has_transferable(&methods[i]) {
            assert(method_uses_transfer(methods@[i as int]));
            return true;
        }
        i = i + 1;
    }
    false
}

/// An `#[api]` trait.
#[derive(Debug)]
pub struct ApiModel {
    /// The trait's attributes.
    pub attributes: Vec<AttributeModel>,
    /// Does the trait declare generic parameters.
    pub is_generic: bool,
    /// The trait's methods, in order (other items do not matter here).
    pub methods: Vec<MethodModel>,
}

/// Serialization of an API, if its attributes are consistent: `#[no_serde]` (at most one)
/// configures serde, and `#[transferable]` on the trait or transferable attributes inside it
/// switch both enums to transferable data, which excludes `#[no_serde]`.
pub open spec fn api_config(api: ApiModel) -> Result<ApiSerializationConfig, MacroErrorView> {
    let positions = no_serde_positions(api.attributes@);
    let trait_transfer = has_attribute(api.attributes@, "transferable"@);
    let methods_transfer = exists|i: int| 0 <= i < api.methods@.len() && #[trigger] method_uses_transfer(api.methods@[i]);
    if positions.len() > 1 {
        Err(MacroErrorView::MultipleNoSerde)
    } else if positions.len() == 1 {
        match no_serde_result(api.attributes@[positions[0]].meta) {
            Err(e) => Err(e),
            Ok(c) => if trait_transfer {
                Err(MacroErrorView::TransferableImpliesNoSerde)
            } else if methods_transfer {
                Err(MacroErrorView::MethodTransferableImpliesNoSerde)
            } else {
                Ok(c)
            },
        }
    } else if trait_transfer || methods_transfer {
        Ok(ApiSerializationConfig {
            request: SerializationConfig::IntoTransferable,
            response: SerializationConfig::IntoTransferable,
        })
    } else {
        Ok(default_config())
    }
}

/// Serialization of an API, from its attributes and those of its methods.
pub fn api_serialization(api: &ApiModel) -> (r: Result<ApiSerializationConfig, MacroError>)
    ensures
        err_view(r) == api_config(*api),
{
    let found = no_serde_attribute(&api.attributes);
    let position = match found {
        Ok(p) => p,
        Err(e) => return Err(e),
    };
    let trait_transfer = any_attribute(&api.attributes, "transferable");
    let methods_transfer = has_methods_with_transferable(&api.methods);
    match position {
        Some(p) => {
            let config = ApiSerializationConfig::from_no_serde_attribute(&api.attributes[p]);
            proof {
                let positions = no_serde_positions(api.attributes@);
                assert(positions.len() == 1);
                assert(0 <= no_serde_positions(api.attributes@)[0] < api.attributes@.len());
                assert(p as int == positions[0]);
                assert(err_view(config) == no_serde_result(api.attributes@[positions[0]].meta));
            }
            match config {
                Err(e) => Err(e),
                Ok(c) => if trait_transfer {
                    Err(MacroError::TransferableImpliesNoSerde)
                } else if methods_transfer {
                    Err(MacroError::MethodTransferableImpliesNoSerde)
                } else {
                    Ok(c)
                },
            }
        },
        None => if trait_transfer || methods_transfer {
            Ok(ApiSerializationConfig {
                request: SerializationConfig::IntoTransferable,
                response: SerializationConfig::IntoTransferable,
            })
        } else {
            Ok(ApiSerializationConfig::default())
        },
    }
}

/// A trait derived by the request or response enum.
#[derive(Debug, Clone, Copy, PartialEq, Eq, Structural)]
pub enum DerivedTrait {
    /// `Debug`.
    Debug,
    /// `Clone`.
    Clone,
    /// serde's `Serialize`.
    Serialize,
    /// serde's `Deserialize`.
    Deserialize,
    /// `IntoTransferable` of the transferable support.
    IntoTransferable,
}

/// Traits derived by an enum serialized as `config` says.
pub open spec fn derived_traits(config: SerializationConfig) -> Seq<DerivedTrait> {
    match config {
        SerializationConfig::Serde(c) => {
            let base = seq![DerivedTrait::Debug, DerivedTrait::Clone];
            let with_serialize = if c.serialize { base.push(DerivedTrait::Serialize) } else { base };
            if c.deserialize { with_serialize.push(DerivedTrait::Deserialize) } else { with_serialize }
        },
        SerializationConfig::IntoTransferable => seq![DerivedTrait::Debug, DerivedTrait::Clone, DerivedTrait::IntoTransferable],
    }
}

/// Traits the request or response enum derives: `Debug` and `Clone`, then the serde traits
/// the configuration asks for, or `IntoTransferable`.
pub fn request_response_derive(config: SerializationConfig) -> (r: Vec<DerivedTrait>)
    ensures
        r@ == derived_traits(config),
{
    let mut r = vec![DerivedTrait::Debug, DerivedTrait::Clone];
    match config {
        SerializationConfig::Serde(c) => {
            if c.serialize {
                r.push(DerivedTrait::Serialize);
            }
            if c.deserialize {
                r.push(DerivedTrait::Deserialize);
            }
        },
        SerializationConfig::IntoTransferable => {
            r.push(DerivedTrait::IntoTransferable);
        },
    }
    proof {
        assert(r@ =~= derived_traits(config));
    }
    r
}

/// First error of a sequence of checks, in order.
pub open spec fn first_error(errors: Seq<Option<MacroErrorView>>) -> Option<MacroErrorView>
    decreases errors.len(),
{
    if errors.len() == 0 {
        None
    } else if errors[0] is Some {
        errors[0]
    } else {
        first_error(errors.drop_first())
    }
}

/// When the checks before `i` pass, the first error is the error at `i` if there is one;
/// when all pass, there is none.
proof fn lemma_first_error(errors: Seq<Option<MacroErrorView>>, i: int)
    requires
        0 <= i <= errors.len(),
        forall|j: int| 0 <= j < i ==> (#[trigger] errors[j]) is None,
    ensures
        i < errors.len() && errors[i] is Some ==> first_error(errors) == errors[i],
        i == errors.len() ==> first_error(errors) is None,
    decreases i,
{
    if i > 0 {
        let rest = errors.drop_first();
        assert forall|j: int| 0 <= j < i - 1 implies (#[trigger] rest[j]) is None by {
            assert(rest[j] == errors[j + 1]);
        }
        lemma_first_error(rest, i - 1);
    }
}

/// Error that generating the response of a method finds, if any: an invalid stream output,
/// a `#[no_ack]` method returning something, or misused transfer attributes.
pub open spec fn response_error(transfer: bool, method: MethodModel) -> Option<MacroErrorView> {
    if return_type_text(method.output) is None {
        Some(MacroErrorView::InvalidStreamReturnType)
    } else if stream_output(method.output) {
        match transfer_marker(transfer, method, true) {
            Err(e) => Some(e),
            Ok(_) => None,
        }
    } else if no_ack_error(method) {
        Some(MacroErrorView::NoAckWithReturnType)
    } else if marked_no_ack(method) {
        None
    } else {
        match transfer_marker(transfer, method, false) {
            Err(e) => Some(e),
            Ok(_) => None,
        }
    }
}

/// Marker of a method's response variant, for a method without response error (`#[no_ack]`
/// methods have no response variant: their marker is [`TransferMarker::Plain`]).
pub open spec fn response_marker(transfer: bool, method: MethodModel) -> TransferMarker {
    if stream_output(method.output) {
        transfer_marker(transfer, method, true)->Ok_0
    } else if marked_no_ack(method) {
        TransferMarker::Plain
    } else {
        transfer_marker(transfer, method, false)->Ok_0
    }
}

/// Error found last, when generating the consumer: a `#[no_ack]` stream method.
pub open spec fn consumer_error(method: MethodModel) -> Option<MacroErrorView> {
    if stream_output(method.output) && marked_no_ack(method) {
        Some(MacroErrorView::NoAckWithReturnType)
    } else {
        None
    }
}

/// Error of generating an API with serialization `config`, if any: first the responses,
/// then a generic trait, then the methods' signatures, then the consumer, each in method
/// order.
pub open spec fn api_plan_error(api: ApiModel, config: ApiSerializationConfig) -> Option<MacroErrorView> {
    let methods = api.methods@;
    let transfer = config.response is IntoTransferable;
    let responses = first_error(Seq::new(methods.len(), |i: int| response_error(transfer, methods[i])));
    let signatures = first_error(Seq::new(methods.len(), |i: int| signature_error(methods[i])));
    let consumers = first_error(Seq::new(methods.len(), |i: int| consumer_error(methods[i])));
    if responses is Some {
        responses
    } else if api.is_generic {
        Some(MacroErrorView::GenericTrait)
    } else if signatures is Some {
        signatures
    } else {
        consumers
    }
}

/// Everything the `#[api]` macro generates from, for a valid API.
#[derive(Debug)]
pub struct ApiPlan {
    /// Serialization of the request and response enums.
    pub config: ApiSerializationConfig,
    /// Marker of each method's response variant, in method order.
    pub markers: Vec<TransferMarker>,
    /// What each method returns to consumers, in method order.
    pub shapes: Vec<RequestShape>,
    /// Plan of each method, in method order.
    pub methods: Vec<MethodPlan>,
}

/// Is `plan` the plan of `api` serialized as `config`.
pub open spec fn is_api_plan(api: ApiModel, config: ApiSerializationConfig, plan: ApiPlan) -> bool {
    let methods = api.methods@;
    let transfer = config.response is IntoTransferable;
    &&& plan.config == config
    &&& plan.markers@.len() == methods.len()
    &&& plan.shapes@.len() == methods.len()
    &&& plan.methods@.len() == methods.len()
    &&& forall|i: int| 0 <= i < methods.len() ==> {
        &&& #[trigger] plan.markers@[i] == response_marker(transfer, methods[i])
        &&& is_shape_of(methods[i], plan.shapes@[i])
        &&& is_plan_of(methods[i], plan.methods@[i])
    }
}

/// Plan the code generated for `api` serialized as `config`, or the first error in the
/// order the macro finds them.
pub fn api_plan(api: &ApiModel, config: ApiSerializationConfig) -> (r: Result<ApiPlan, MacroError>)
    ensures
        match api_plan_error(*api, config) {
            Some(e) => r is Err && r->Err_0@ == e,
            None => r is Ok && is_api_plan(*api, config, r->Ok_0),
        },
{
    let ghost methods = api.methods@;
    let transfer = match config.response {
        SerializationConfig::IntoTransferable => true,
        SerializationConfig::Serde(_) => false,
    };
    let ghost responses = Seq::new(methods.len(), |i: int| response_error(transfer, methods[i]));
    let ghost signatures = Seq::new(methods.len(), |i: int| signature_error(methods[i]));
    let ghost consumers = Seq::new(methods.len(), |i: int| consumer_error(methods[i]));
    let mut markers: Vec<TransferMarker> = Vec::new();
    let mut i: usize = 0;
    while i < api.methods.len()
        invariant
            i <= api.methods.len(),
            methods == api.methods@,
            transfer == config.response is IntoTransferable,
            responses == Seq::new(methods.len(), |i: int| response_error(transfer, methods[i])),
            markers@.len() == i,
            forall|j: int| 0 <= j < i ==> (#[trigger] responses[j]) is None,
            forall|j: int| 0 <= j < i ==> #[trigger] markers@[j] == response_marker(transfer, methods[j]),
        decreases api.methods.len() - i,
    {
        let method = &api.methods[i];
        let failed: Option<MacroError> = match extract_return_type(&method.output) {
            Err(e) => Some(e),
            Ok(_) => if is_stream(&method.output) {
                match transferable_attribute(transfer, method, true) {
                    Err(e) => Some(e),
                    Ok(marker) => {
                        markers.push(marker);
                        None
                    },
                }
            } else {
                match is_no_ack(method) {
                    Err(e) => Some(e),
                    Ok(true) => {
                        markers.push(TransferMarker::Plain);
                        None
                    },
                    Ok(false) => match transferable_attribute(transfer, method, false) {
                        Err(e) => Some(e),
                        Ok(marker) => {
                            markers.push(marker);
                            None
                        },
                    },
                }
            },
        };
        match failed {
            Some(e) => {
                proof {
                    assert(responses[i as int] == Some(e@));
                    lemma_first_error(responses, i as int);
                }
                return Err(e);
            },
            None => {},
        }
        assert(responses[i as int] is None);
        i = i + 1;
    }
    proof {
        lemma_first_error(responses, methods.len() as int);
    }
    if api.is_generic {
        return Err(MacroError::GenericTrait);
    }
    let mut shapes: Vec<RequestShape> = Vec::new();
    let mut i: usize = 0;
    while i < api.methods.len()
        invariant
            i <= api.methods.len(),
            methods == api.methods@,
            signatures == Seq::new(methods.len(), |i: int| signature_error(methods[i])),
            forall|j: int| 0 <= j < methods.len() ==> (#[trigger] responses[j]) is None,
            responses == Seq::new(methods.len(), |i: int| response_error(transfer, methods[i])),
            shapes@.len() == i,
            first_error(responses) is None,
            !api.is_generic,
            transfer == config.response is IntoTransferable,
            forall|j: int| 0 <= j < i ==> (#[trigger] signatures[j]) is None,
            forall|j: int| 0 <= j < i ==> is_shape_of(methods[j], #[trigger] shapes@[j]),
        decreases api.methods.len() - i,
    {
        assert(responses[i as int] is None);
        match request_shape(&api.methods[i]) {
            Err(e) => {
                proof {
                    assert(signatures[i as int] == Some(e@));
                    lemma_first_error(signatures, i as int);
                }
                return Err(e);
            },
            Ok(shape) => {
                shapes.push(shape);
            },
        }
        i = i + 1;
    }
    proof {
        lemma_first_error(signatures, methods.len() as int);
    }
    let mut plans: Vec<MethodPlan> = Vec::new();
    let mut i: usize = 0;
    while i < api.methods.len()
        invariant
            i <= api.methods.len(),
            methods == api.methods@,
            consumers == Seq::new(methods.len(), |i: int| consumer_error(methods[i])),
            forall|j: int| 0 <= j < methods.len() ==> (#[trigger] responses[j]) is None,
            responses == Seq::new(methods.len(), |i: int| response_error(transfer, methods[i])),
            plans@.len() == i,
            first_error(responses) is None,
            !api.is_generic,
            transfer == config.response is IntoTransferable,
            signatures == Seq::new(methods.len(), |i: int| signature_error(methods[i])),
            first_error(signatures) is None,
            forall|j: int| 0 <= j < i ==> (#[trigger] consumers[j]) is None,
            forall|j: int| 0 <= j < i ==> is_plan_of(methods[j], #[trigger] plans@[j]),
        decreases api.methods.len() - i,
    {
        assert(responses[i as int] is None);
        match method_plan(&api.methods[i]) {
            Err(e) => {
                proof {
                    assert(consumers[i as int] == Some(e@));
                    lemma_first_error(consumers, i as int);
                }
                return Err(e);
            },
            Ok(plan) => {
                plans.push(plan);
            },
        }
        i = i + 1;
    }
    proof {
        lemma_first_error(consumers, methods.len() as int);
    }
    let plan = ApiPlan { config, markers, shapes, methods: plans };
    proof {
        assert forall|j: int| 0 <= j < methods.len() implies {
            &&& #[trigger] plan.markers@[j] == response_marker(transfer, methods[j])
            &&& is_shape_of(methods[j], plan.shapes@[j])
            &&& is_plan_of(methods[j], plan.methods@[j])
        } by {}
    }
    Ok(plan)
}

/// Read an `#[api]` trait: its serialization, then the plan of the generated code, or the
/// first error the macro finds.
pub fn expand_api(api: &ApiModel) -> (r: Result<ApiPlan, MacroError>)
    ensures
        match api_config(*api) {
            Err(e) => r is Err && r->Err_0@ == e,
            Ok(config) => match api_plan_error(*api, config) {
                Some(e) => r is Err && r->Err_0@ == e,
                None => r is Ok && is_api_plan(*api, config, r->Ok_0),
            },
        },
{
    let config = api_serialization(api);
    match config {
        Err(e) => Err(e),
        Ok(c) => api_plan(api, c),
    }
}

} // verus!
