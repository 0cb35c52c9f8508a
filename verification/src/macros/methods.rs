//! Decisions about single methods of an `#[api]` trait.
use vstd::prelude::*;

use convert_case::{Case, Casing};

use super::{AttributeModel, MacroError, MacroErrorView, any_attribute, err_view, has_attribute, same_text};

verus! {

/// Arguments of a path segment in a bound.
#[derive(Debug)]
pub enum ArgumentsModel {
    /// No arguments.
    Bare,
    /// `<...>` arguments.
    AngleBracketed(Vec<GenericArgumentModel>),
    /// `(...)` arguments.
    Parenthesized,
}

/// One argument inside `<...>`.
#[derive(Debug)]
pub enum GenericArgumentModel {
    /// `Name = Type`, with the type written out.
    AssocType {
        /// The associated type's name.
        ident: String,
        /// The type, as written.
        ty: String,
    },
    /// Any other argument.
    Other,
}

/// A segment of a trait bound's path.
#[derive(Debug)]
pub struct BoundSegmentModel {
    /// The segment's identifier.
    pub ident: String,
    /// The segment's arguments.
    pub arguments: ArgumentsModel,
}

/// A bound of an `impl ...` type.
#[derive(Debug)]
pub enum BoundModel {
    /// A trait bound, by its path's segments.
    Trait(Vec<BoundSegmentModel>),
    /// A lifetime or other bound.
    Other,
}

/// A type.
#[derive(Debug)]
pub enum TypeModel {
    /// `impl Bound + ...`.
    ImplTrait(Vec<BoundModel>),
    /// Any other type, as written.
    Other(String),
}

/// A method's declared output.
#[derive(Debug)]
pub enum ReturnModel {
    /// No `-> ...`.
    Default,
    /// `-> Type`.
    Type(TypeModel),
}

/// A method parameter.
#[derive(Debug)]
pub enum FnArgModel {
    /// `self`, `&self`, `&mut self` or a typed `self`.
    Receiver,
    /// `pattern: Type`.
    Typed {
        /// The parameter's attributes.
        attributes: Vec<AttributeModel>,
        /// The bound name when the pattern is an identifier.
        name: Option<String>,
        /// The type, as written.
        ty: String,
    },
}

/// A method of an `#[api]` trait.
#[derive(Debug)]
pub struct MethodModel {
    /// The method's attributes.
    pub attributes: Vec<AttributeModel>,
    /// The method's name.
    pub name: String,
    /// Is the method `async`.
    pub is_async: bool,
    /// Does the method declare generic parameters.
    pub is_generic: bool,
    /// The method's parameters.
    pub inputs: Vec<FnArgModel>,
    /// The method's output.
    pub output: ReturnModel,
}

/// Is the method marked `#[no_ack]`.
pub open spec fn marked_no_ack(method: MethodModel) -> bool {
    has_attribute(method.attributes@, "no_ack"@)
}

/// Does the method declare an output.
pub open spec fn declares_output(method: MethodModel) -> bool {
    method.output is Type
}

/// Is `#[no_ack]` rejected on this method (because it returns something).
pub open spec fn no_ack_error(method: MethodModel) -> bool {
    marked_no_ack(method) && declares_output(method)
}

/// Is the method marked `#[no_ack]`, failing when such a method returns something.
pub fn is_no_ack(method: &MethodModel) -> (r: Result<bool, MacroError>)
    ensures
        no_ack_error(*method) ==> r == Err::<bool, MacroError>(MacroError::NoAckWithReturnType),
        !no_ack_error(*method) ==> r == Ok::<bool, MacroError>(marked_no_ack(*method)),
{
    let no_ack = any_attribute(&method.attributes, "no_ack");
    let has_output = match &method.output {
        ReturnModel::Default => false,
        ReturnModel::Type(_) => true,
    };
    if no_ack && has_output {
        Err(MacroError::NoAckWithReturnType)
    } else {
        Ok(no_ack)
    }
}

/// Is the method marked `#[abortable]`.
pub fn is_abortable(method: &MethodModel) -> (r: bool)
    ensures
        r == has_attribute(method.attributes@, "abortable"@),
{
    any_attribute(&method.attributes, "abortable")
}

/// Does a method with this output return a stream (`impl ...`).
pub open spec fn stream_output(output: ReturnModel) -> bool {
    output matches ReturnModel::Type(TypeModel::ImplTrait(_))
}

/// Does a method with this output return a stream (`impl ...`).
pub fn is_stream(output: &ReturnModel) -> (r: bool)
    ensures
        r == stream_output(*output),
{
    match output {
        ReturnModel::Type(TypeModel::ImplTrait(_)) => true,
        _ => false,
    }
}

/// Is this parameter kept in requests: a parameter with an identifier pattern other than
/// `self`.
pub open spec fn keeps(argument: FnArgModel) -> bool {
    match argument {
        FnArgModel::Typed { name: Some(name), .. } => name@ != "self"@,
        _ => false,
    }
}

/// Name of a kept parameter.
pub open spec fn kept_name(argument: FnArgModel) -> Seq<char> {
    match argument {
        FnArgModel::Typed { name: Some(name), .. } => name@,
        _ => Seq::empty(),
    }
}

/// Positions of the kept parameters, in order.
pub open spec fn kept_positions(arguments: Seq<FnArgModel>) -> Seq<int>
    decreases arguments.len(),
{
    if arguments.len() == 0 {
        Seq::empty()
    } else {
        let before = kept_positions(arguments.drop_last());
        if keeps(arguments.last()) { before.push(arguments.len() - 1) } else { before }
    }
}

/// Names of the kept parameters, in order.
pub open spec fn kept_names(arguments: Seq<FnArgModel>) -> Seq<Seq<char>>
    decreases arguments.len(),
{
    if arguments.len() == 0 {
        Seq::empty()
    } else {
        let before = kept_names(arguments.drop_last());
        if keeps(arguments.last()) { before.push(kept_name(arguments.last())) } else { before }
    }
}

fn keeps_argument(argument: &FnArgModel) -> (r: bool)
    ensures
        r == keeps(*argument),
{
    match argument {
        FnArgModel::Typed { name: Some(name), .. } => !same_text(name, "self"),
        _ => false,
    }
}

/// Positions of the parameters that requests carry: those with an identifier pattern other
/// than `self`.
pub fn skip_self(arguments: &Vec<FnArgModel>) -> (r: Vec<usize>)
    ensures
        r@.map_values(|p: usize| p as int) == kept_positions(arguments@),
{
    let mut out: Vec<usize> = Vec::new();
    let mut i: usize = 0;
    while i < arguments.len()
        invariant
            i <= arguments.len(),
            out@.map_values(|p: usize| p as int) == kept_positions(arguments@.take(i as int)),
        decreases arguments.len() - i,
    {
        proof {
            assert(arguments@.take(i as int + 1).drop_last() =~= arguments@.take(i as int));
        }
        if keeps_argument(&arguments[i]) {
            out.push(i);
        }
        i = i + 1;
    }
    proof {
        assert(arguments@.take(arguments.len() as int) =~= arguments@);
    }
    out
}

/// Names of the parameters that requests carry, in order: the fields of the request variant
/// and the pattern that takes it apart.
pub fn patternize_arguments(arguments: &Vec<FnArgModel>) -> (r: Vec<String>)
    ensures
        r@.map_values(|s: String| s@) == kept_names(arguments@),
{
    let mut out: Vec<String> = Vec::new();
    let mut i: usize = 0;
    while i < arguments.len()
        invariant
            i <= arguments.len(),
            out@.map_values(|s: String| s@) == kept_names(arguments@.take(i as int)),
        decreases arguments.len() - i,
    {
        proof {
            assert(arguments@.take(i as int + 1).drop_last() =~= arguments@.take(i as int));
        }
        match &arguments[i] {
            FnArgModel::Typed { name: Some(name), .. } => {
                if !same_text(name, "self") {
                    out.push(name.clone());
                }
            },
            _ => {},
        }
        i = i + 1;
    }
    proof {
        assert(arguments@.take(arguments.len() as int) =~= arguments@);
    }
    out
}

/// Item type of `impl Stream<Item = T>`: the bounds are exactly one trait bound with one
/// segment `Stream` whose only argument is `Item = T`.
pub open spec fn stream_item(bounds: Seq<BoundModel>) -> Option<Seq<char>> {
    if bounds.len() == 1 {
        match bounds[0] {
            BoundModel::Trait(segments) => if segments@.len() == 1 && segments@[0].ident@ == "Stream"@ {
                match segments@[0].arguments {
                    ArgumentsModel::AngleBracketed(arguments) => if arguments@.len() == 1 {
                        match arguments@[0] {
                            GenericArgumentModel::AssocType { ident, ty } =>
                                if ident@ == "Item"@ { Some(ty@) } else { None },
                            _ => None,
                        }
                    } else {
                        None
                    },
                    _ => None,
                }
            } else {
                None
            },
            _ => None,
        }
    } else {
        None
    }
}

/// Item type of a stream method's `impl Stream<Item = T>` output, or
/// [`MacroError::InvalidStreamReturnType`] for any other `impl ...`.
pub fn extract_stream_item_type(bounds: &Vec<BoundModel>) -> (r: Result<String, MacroError>)
    ensures
        match stream_item(bounds@) {
            Some(item) => r matches Ok(text) && text@ == item,
            None => r == Err::<String, MacroError>(MacroError::InvalidStreamReturnType),
        },
{
    if bounds.len() == 1 {
        if let BoundModel::Trait(segments) = &bounds[0] {
            if segments.len() == 1 && same_text(&segments[0].ident, "Stream") {
                if let ArgumentsModel::AngleBracketed(arguments) = &segments[0].arguments {
                    if arguments.len() == 1 {
                        if let GenericArgumentModel::AssocType { ident, ty } = &arguments[0] {
                            if same_text(ident, "Item") {
                                return Ok(ty.clone());
                            }
                        }
                    }
                }
            }
        }
    }
    Err(MacroError::InvalidStreamReturnType)
}

/// Type of the values a method's request produces, if the output is valid: `()` without an
/// output, the item type of a stream, or the declared type.
pub open spec fn return_type_text(output: ReturnModel) -> Option<Seq<char>> {
    match output {
        ReturnModel::Default => Some("()"@),
        ReturnModel::Type(TypeModel::ImplTrait(bounds)) => stream_item(bounds@),
        ReturnModel::Type(TypeModel::Other(ty)) => Some(ty@),
    }
}

/// Type of the values a method's request produces: `()` without an output, the item type of
/// a stream, or the declared type.
pub fn extract_return_type(output: &ReturnModel) -> (r: Result<String, MacroError>)
    ensures
        match return_type_text(*output) {
            Some(text) => r matches Ok(s) && s@ == text,
            None => r == Err::<String, MacroError>(MacroError::InvalidStreamReturnType),
        },
{
    match output {
        ReturnModel::Default => Ok("()".to_owned()),
        ReturnModel::Type(TypeModel::ImplTrait(bounds)) => extract_stream_item_type(bounds),
        ReturnModel::Type(TypeModel::Other(ty)) => Ok(ty.clone()),
    }
}

/// What an API method returns to consumers.
#[derive(Debug)]
pub enum RequestShape {
    /// A value request producing values of this type.
    Value(String),
    /// A stream request producing items of this type.
    Stream(String),
}

/// Is `shape` what the method returns to consumers.
pub open spec fn is_shape_of(method: MethodModel, shape: RequestShape) -> bool {
    match return_type_text(method.output) {
        Some(text) => if stream_output(method.output) {
            shape matches RequestShape::Stream(s) && s@ == text
        } else {
            shape matches RequestShape::Value(s) && s@ == text
        },
        None => false,
    }
}

/// Error of an API method's signature, if any: it must be `async` and not generic.
pub open spec fn signature_error(method: MethodModel) -> Option<MacroErrorView> {
    if !method.is_async {
        Some(MacroErrorView::NotAsync)
    } else if method.is_generic {
        Some(MacroErrorView::GenericMethod)
    } else {
        None
    }
}

/// What an API method returns to consumers: a stream request for `impl Stream<Item = T>`,
/// a value request otherwise (of `()` without an output), after checking that the method is
/// `async` and not generic.
pub fn request_shape(method: &MethodModel) -> (r: Result<RequestShape, MacroError>)
    ensures
        match signature_error(*method) {
            Some(e) => err_view(r) == Err::<RequestShape, MacroErrorView>(e),
            None => match return_type_text(method.output) {
                None => r == Err::<RequestShape, MacroError>(MacroError::InvalidStreamReturnType),
                Some(text) => if stream_output(method.output) {
                    r matches Ok(RequestShape::Stream(s)) && s@ == text
                } else {
                    r matches Ok(RequestShape::Value(s)) && s@ == text
                },
            },
        },
        signature_error(*method) is None && return_type_text(method.output) is Some
            ==> r is Ok && is_shape_of(*method, r->Ok_0),
{
    if !method.is_async {
        return Err(MacroError::NotAsync);
    }
    if method.is_generic {
        return Err(MacroError::GenericMethod);
    }
    let stream = is_stream(&method.output);
    match extract_return_type(&method.output) {
        Ok(text) => if stream {
            Ok(RequestShape::Stream(text))
        } else {
            Ok(RequestShape::Value(text))
        },
        Err(e) => Err(e),
    }
}

/// Letter case of a generated name.
#[derive(Debug, Clone, Copy, PartialEq, Eq, Structural)]
pub enum NameCase {
    /// `PascalCase`, for request and response variants.
    Pascal,
    /// `snake_case`, for generated fields.
    Snake,
}

/// Result of `convert_case`'s `to_case` on `text` with the given case.
pub uninterp spec fn converted_case(text: Seq<char>, case: NameCase) -> Seq<char>;

/// Calls `convert_case::Casing::to_case`, which splits `text` into words and joins them in
/// the given case. The result is a function of the text and the case alone, named
/// [`converted_case`]; nothing more is stated of it.
#[verifier::external_body]
fn convert_name(text: &str, case: NameCase) -> (r: String)
    ensures
        r@ == converted_case(text@, case),
{
    let case = match case {
        NameCase::Pascal => Case::Pascal,
        NameCase::Snake => Case::Snake,
    };
    text.to_case(case)
}

/// How the consumer and producer treat a method's requests.
#[derive(Debug, Clone, Copy, PartialEq, Eq, Structural)]
pub enum MethodKind {
    /// A request answered by one value.
    Value,
    /// A request that is not answered.
    NoAck,
    /// A request answered by a stream.
    Stream,
}

/// Consumer handler that a method's responses go to.
#[derive(Debug, Clone, Copy, PartialEq, Eq, Structural)]
pub enum ResponseHandler {
    /// Single values: `handle_response` of the consumer.
    Value,
    /// Stream responses: `handle_stream_response` of the consumer.
    Stream,
}

/// Consumer handler that responses of a method of kind `kind` go to: values to the value
/// handler, streams to the stream handler; `#[no_ack]` methods have no response and no table
/// of pending requests.
pub fn response_handler(kind: MethodKind) -> (r: Option<ResponseHandler>)
    ensures
        match kind {
            MethodKind::Value => r == Some(ResponseHandler::Value),
            MethodKind::Stream => r == Some(ResponseHandler::Stream),
            MethodKind::NoAck => r is None,
        },
{
    match kind {
        MethodKind::Value => Some(ResponseHandler::Value),
        MethodKind::Stream => Some(ResponseHandler::Stream),
        MethodKind::NoAck => None,
    }
}

/// Everything the generated consumer and producer need to know of a method.
#[derive(Debug)]
pub struct MethodPlan {
    /// Name of the method's request and response variants (the name in `PascalCase`).
    pub variant: String,
    /// Prefix of the generated per-method fields (the name in `snake_case`).
    pub field: String,
    /// How requests of the method are treated.
    pub kind: MethodKind,
    /// Can requests of the method be aborted while they run.
    pub abortable: bool,
    /// Names of the request's fields, in order.
    pub arguments: Vec<String>,
    /// Type of the values the request produces.
    pub return_type: String,
}

/// Is `plan` the plan of a valid method.
pub open spec fn is_plan_of(method: MethodModel, plan: MethodPlan) -> bool {
    &&& plan.variant@ == converted_case(method.name@, NameCase::Pascal)
    &&& plan.field@ == converted_case(method.name@, NameCase::Snake)
    &&& method_kind(method) == Ok::<MethodKind, MacroErrorView>(plan.kind)
    &&& plan.abortable == has_attribute(method.attributes@, "abortable"@)
    &&& plan.arguments@.map_values(|s: String| s@) == kept_names(method.inputs@)
    &&& return_type_text(method.output) == Some(plan.return_type@)
}

/// Kind of a method, if it is valid: streams first, then `#[no_ack]` methods (which must not
/// return anything), then value requests.
pub open spec fn method_kind(method: MethodModel) -> Result<MethodKind, MacroErrorView> {
    if stream_output(method.output) {
        if marked_no_ack(method) { Err(MacroErrorView::NoAckWithReturnType) } else { Ok(MethodKind::Stream) }
    } else if no_ack_error(method) {
        Err(MacroErrorView::NoAckWithReturnType)
    } else if marked_no_ack(method) {
        Ok(MethodKind::NoAck)
    } else {
        Ok(MethodKind::Value)
    }
}

/// Plan of a method: its generated names, kind, arguments and return type. A method whose
/// output is an invalid `impl ...` fails with [`MacroError::InvalidStreamReturnType`], a
/// `#[no_ack]` method that returns something with [`MacroError::NoAckWithReturnType`].
pub fn method_plan(method: &MethodModel) -> (r: Result<MethodPlan, MacroError>)
    ensures
        return_type_text(method.output) is None ==> r == Err::<MethodPlan, MacroError>(MacroError::InvalidStreamReturnType),
        return_type_text(method.output) is Some && method_kind(*method) is Err
            ==> err_view(r) == Err::<MethodPlan, MacroErrorView>(method_kind(*method)->Err_0),
        (return_type_text(method.output) is Some && method_kind(*method) is Ok) ==> {
            &&& r is Ok
            &&& r->Ok_0.variant@ == converted_case(method.name@, NameCase::Pascal)
            &&& r->Ok_0.field@ == converted_case(method.name@, NameCase::Snake)
            &&& r->Ok_0.kind == method_kind(*method)->Ok_0
            &&& r->Ok_0.abortable == has_attribute(method.attributes@, "abortable"@)
            &&& r->Ok_0.arguments@.map_values(|s: String| s@) == kept_names(method.inputs@)
            &&& Some(r->Ok_0.return_type@) == return_type_text(method.output)
            &&& is_plan_of(*method, r->Ok_0)
        },
{
    let return_type = match extract_return_type(&method.output) {
        Ok(t) => t,
        Err(e) => return Err(e),
    };
    let stream = is_stream(&method.output);
    let no_ack = any_attribute(&method.attributes, "no_ack");
    let kind = if stream {
        if no_ack {
            return Err(MacroError::NoAckWithReturnType);
        }
        MethodKind::Stream
    } else {
        match is_no_ack(method) {
            Ok(true) => MethodKind::NoAck,
            Ok(false) => MethodKind::Value,
            Err(e) => return Err(e),
        }
    };
    let variant = convert_name(method.name.as_str(), NameCase::Pascal);
    let field = convert_name(method.name.as_str(), NameCase::Snake);
    let abortable = is_abortable(method);
    let arguments = patternize_arguments(&method.inputs);
    Ok(MethodPlan { variant, field, kind, abortable, arguments, return_type })
}

/// Attribute that marks a response variant for transfer.
#[derive(Debug, Clone, Copy, PartialEq, Eq, Structural)]
pub enum TransferMarker {
    /// No marker: the value is serialized.
    Plain,
    /// `#[transferable]`: the value is transferred as is.
    Transferable,
    /// `#[into_transferable]`: the value is converted into transferable data.
    IntoTransferable,
}

/// Marker of a method's response, if the method's transfer attributes are valid: they need
/// an API serialized into transferable data (`transfer`), not both at once, and no
/// `#[transferable]` on streams.
pub open spec fn transfer_marker(transfer: bool, method: MethodModel, stream: bool) -> Result<TransferMarker, MacroErrorView> {
    let transferable = has_attribute(method.attributes@, "transferable"@);
    let into_transferable = has_attribute(method.attributes@, "into_transferable"@);
    if !transfer && (transferable || into_transferable) {
        Err(MacroErrorView::TransferableWithSerde)
    } else if transferable && into_transferable {
        Err(MacroErrorView::MethodBothTransferable)
    } else if transferable {
        if stream { Err(MacroErrorView::TransferableOnStream) } else { Ok(TransferMarker::Transferable) }
    } else if into_transferable {
        Ok(TransferMarker::IntoTransferable)
    } else {
        Ok(TransferMarker::Plain)
    }
}

/// Marker of a method's response variant. `transfer` says whether the API is serialized into
/// transferable data rather than with serde; `stream` whether the method returns a stream.
pub fn transferable_attribute(transfer: bool, method: &MethodModel, stream: bool) -> (r: Result<TransferMarker, MacroError>)
    ensures
        err_view(r) == transfer_marker(transfer, *method, stream),
{
    let transferable = any_attribute(&method.attributes, "transferable");
    let into_transferable = any_attribute(&method.attributes, "into_transferable");
    if !transfer && (transferable || into_transferable) {
        Err(MacroError::TransferableWithSerde)
    } else if transferable && into_transferable {
        Err(MacroError::MethodBothTransferable)
    } else if transferable {
        if stream {
            Err(MacroError::TransferableOnStream)
        } else {
            Ok(TransferMarker::Transferable)
        }
    } else if into_transferable {
        Ok(TransferMarker::IntoTransferable)
    } else {
        Ok(TransferMarker::Plain)
    }
}

} // verus!
