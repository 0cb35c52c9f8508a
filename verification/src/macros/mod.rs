//! Decisions of the `dnet` procedural macros.
//!
//! The macros read Rust items and generate code for them. What they decide (which
//! attributes mark a method, which serialization an API uses, what a method's request and
//! response look like, which items are rejected and with which message) is made here, on a
//! plain model of the items; turning items into the model and the decisions into tokens is
//! left to the macro crate.
use vstd::prelude::*;

pub mod api;
pub mod methods;
pub mod paths;
pub mod transferable;

verus! {

/// One segment of a path.
#[derive(Debug)]
pub struct SegmentModel {
    /// The segment's identifier.
    pub ident: String,
    /// Does the segment carry generic or parenthesized arguments.
    pub has_arguments: bool,
}

/// A path, as written in an attribute or a bound.
#[derive(Debug)]
pub struct PathModel {
    /// Does the path start with `::`.
    pub leading_colon: bool,
    /// The path's segments.
    pub segments: Vec<SegmentModel>,
}

/// What follows an attribute's path.
#[derive(Debug)]
pub enum MetaModel {
    /// Nothing: `#[name]`.
    Path,
    /// A list in parentheses, parsed as comma separated paths (`Ok`), or the message of the
    /// parser when it is not such a list (`Err`).
    List(Result<Vec<PathModel>, String>),
    /// `#[name = value]`.
    NameValue,
}

/// An attribute.
#[derive(Debug)]
pub struct AttributeModel {
    /// The attribute's path.
    pub path: PathModel,
    /// What follows the path.
    pub meta: MetaModel,
}

/// Error of a macro, with the message the compiler shows for it.
#[derive(Debug, PartialEq, Eq)]
pub enum MacroError {
    /// A `#[no_ack]` method declares a return type.
    NoAckWithReturnType,
    /// A method returns `impl ...` other than `impl Stream<Item = T>`.
    InvalidStreamReturnType,
    /// A `#[no_serde(..)]` parameter is not an identifier.
    ExpectedIdentifier,
    /// A `#[no_serde(..)]` parameter is not known.
    UnknownNoSerdeParameter(String),
    /// `#[no_serde = ..]` was written.
    NoSerdeKeyValue,
    /// More than one `#[no_serde]` attribute.
    MultipleNoSerde,
    /// `#[no_serde]` together with `#[transferable]` on the API.
    TransferableImpliesNoSerde,
    /// `#[no_serde]` together with transferable attributes inside the API.
    MethodTransferableImpliesNoSerde,
    /// The API trait is generic.
    GenericTrait,
    /// An API method is not `async`.
    NotAsync,
    /// An API method is generic.
    GenericMethod,
    /// Transferable attributes on a method of an API serialized with serde.
    TransferableWithSerde,
    /// A method is marked both `#[transferable]` and `#[into_transferable]`.
    MethodBothTransferable,
    /// `#[transferable]` on a stream method.
    TransferableOnStream,
    /// A field is marked both `#[transferable]` and `#[into_transferable]`.
    FieldBothTransferable,
    /// `#[derive(IntoTransferable)]` on a union.
    UnionNotSupported,
    /// The codec bound is not `WrapperLikeTransferable<C>` with one type argument.
    CodecBoundArity,
    /// The codec bound's argument is not a plain type name.
    CodecBoundNotSimple,
    /// Two codec bounds name different codecs.
    ConflictingCodecs(String, String),
    /// A crate is not among the dependencies.
    CrateNotFound(String),
    /// Neither `dnet` nor the given `dnet-*` crate is among the dependencies.
    DnetNotFound(String),
    /// The parser's own message.
    Syntax(String),
}

/// Mathematical content of a [`MacroError`]: the same variants, with texts as sequences.
pub enum MacroErrorView {
    /// See [`MacroError::NoAckWithReturnType`].
    NoAckWithReturnType,
    /// See [`MacroError::InvalidStreamReturnType`].
    InvalidStreamReturnType,
    /// See [`MacroError::ExpectedIdentifier`].
    ExpectedIdentifier,
    /// See [`MacroError::UnknownNoSerdeParameter`].
    UnknownNoSerdeParameter(Seq<char>),
    /// See [`MacroError::NoSerdeKeyValue`].
    NoSerdeKeyValue,
    /// See [`MacroError::MultipleNoSerde`].
    MultipleNoSerde,
    /// See [`MacroError::TransferableImpliesNoSerde`].
    TransferableImpliesNoSerde,
    /// See [`MacroError::MethodTransferableImpliesNoSerde`].
    MethodTransferableImpliesNoSerde,
    /// See [`MacroError::GenericTrait`].
    GenericTrait,
    /// See [`MacroError::NotAsync`].
    NotAsync,
    /// See [`MacroError::GenericMethod`].
    GenericMethod,
    /// See [`MacroError::TransferableWithSerde`].
    TransferableWithSerde,
    /// See [`MacroError::MethodBothTransferable`].
    MethodBothTransferable,
    /// See [`MacroError::TransferableOnStream`].
    TransferableOnStream,
    /// See [`MacroError::FieldBothTransferable`].
    FieldBothTransferable,
    /// See [`MacroError::UnionNotSupported`].
    UnionNotSupported,
    /// See [`MacroError::CodecBoundArity`].
    CodecBoundArity,
    /// See [`MacroError::CodecBoundNotSimple`].
    CodecBoundNotSimple,
    /// See [`MacroError::ConflictingCodecs`].
    ConflictingCodecs(Seq<char>, Seq<char>),
    /// See [`MacroError::CrateNotFound`].
    CrateNotFound(Seq<char>),
    /// See [`MacroError::DnetNotFound`].
    DnetNotFound(Seq<char>),
    /// See [`MacroError::Syntax`].
    Syntax(Seq<char>),
}

impl View for MacroError {
    type V = MacroErrorView;

    open spec fn view(&self) -> MacroErrorView {
        match self {
            MacroError::NoAckWithReturnType => MacroErrorView::NoAckWithReturnType,
            MacroError::InvalidStreamReturnType => MacroErrorView::InvalidStreamReturnType,
            MacroError::ExpectedIdentifier => MacroErrorView::ExpectedIdentifier,
            MacroError::UnknownNoSerdeParameter(name) => MacroErrorView::UnknownNoSerdeParameter(name@),
            MacroError::NoSerdeKeyValue => MacroErrorView::NoSerdeKeyValue,
            MacroError::MultipleNoSerde => MacroErrorView::MultipleNoSerde,
            MacroError::TransferableImpliesNoSerde => MacroErrorView::TransferableImpliesNoSerde,
            MacroError::MethodTransferableImpliesNoSerde => MacroErrorView::MethodTransferableImpliesNoSerde,
            MacroError::GenericTrait => MacroErrorView::GenericTrait,
            MacroError::NotAsync => MacroErrorView::NotAsync,
            MacroError::GenericMethod => MacroErrorView::GenericMethod,
            MacroError::TransferableWithSerde => MacroErrorView::TransferableWithSerde,
            MacroError::MethodBothTransferable => MacroErrorView::MethodBothTransferable,
            MacroError::TransferableOnStream => MacroErrorView::TransferableOnStream,
            MacroError::FieldBothTransferable => MacroErrorView::FieldBothTransferable,
            MacroError::UnionNotSupported => MacroErrorView::UnionNotSupported,
            MacroError::CodecBoundArity => MacroErrorView::CodecBoundArity,
            MacroError::CodecBoundNotSimple => MacroErrorView::CodecBoundNotSimple,
            MacroError::ConflictingCodecs(a, b) => MacroErrorView::ConflictingCodecs(a@, b@),
            MacroError::CrateNotFound(name) => MacroErrorView::CrateNotFound(name@),
            MacroError::DnetNotFound(name) => MacroErrorView::DnetNotFound(name@),
            MacroError::Syntax(message) => MacroErrorView::Syntax(message@),
        }
    }
}

/// Message the compiler shows for an error.
pub open spec fn error_message(e: MacroErrorView) -> Seq<char> {
    match e {
        MacroErrorView::NoAckWithReturnType => "#[no_ack] functions must not have a return type"@,
        MacroErrorView::InvalidStreamReturnType => "invalid stream request method return type"@,
        MacroErrorView::ExpectedIdentifier => "expected identifier"@,
        MacroErrorView::UnknownNoSerdeParameter(name) => "unknown no_serde parameter `"@ + name + "`"@,
        MacroErrorView::NoSerdeKeyValue => "#[no_serde] does not support `key = value` syntax"@,
        MacroErrorView::MultipleNoSerde => "multiple #[no_serde] attributes found, only one (or none) is allowed"@,
        MacroErrorView::TransferableImpliesNoSerde =>
            "the #[transferable] attribute automatically implies #[no_serde] - remove the #[no_serde] attribute"@,
        MacroErrorView::MethodTransferableImpliesNoSerde =>
            "use of the #[transferable]/#[into_transferable] attribute(s) inside API implies #[no_serde] - remove the #[no_serde] attribute"@,
        MacroErrorView::GenericTrait => "generic traits are not supported in #[api]"@,
        MacroErrorView::NotAsync => "all api methods must be marked as \"async\""@,
        MacroErrorView::GenericMethod => "generic methods are not supported"@,
        MacroErrorView::TransferableWithSerde =>
            "the #[transferable] and #[into_transferable] attributes are only supported when using SerializationConfig::IntoTransferable"@,
        MacroErrorView::MethodBothTransferable => "a function cannot be marked with both #[transferable] and #[into_transferable]"@,
        MacroErrorView::TransferableOnStream =>
            "the #[transferable] attribute is not supported on stream responses, use #[into_transferable] instead"@,
        MacroErrorView::FieldBothTransferable => "a field cannot be both #[transferable] and #[into_transferable]"@,
        MacroErrorView::UnionNotSupported => "unions are not supported in #[derive(IntoTransferable)]"@,
        MacroErrorView::CodecBoundArity => "WrapperLikeTransferable must have exactly one type parameter"@,
        MacroErrorView::CodecBoundNotSimple => "WrapperLikeTransferable argument must be a simple type identifier"@,
        MacroErrorView::ConflictingCodecs(a, b) =>
            "conflicting WrapperLikeTransferable type arguments: `"@ + a + "` vs `"@ + b + "`"@,
        MacroErrorView::CrateNotFound(name) => "crate `"@ + name + "` not found in Cargo.toml"@,
        MacroErrorView::DnetNotFound(name) => "neither `dnet` nor `"@ + name + "` found in Cargo.toml"@,
        MacroErrorView::Syntax(message) => message,
    }
}

impl MacroError {
    /// Message the compiler shows for the error.
    pub fn message(&self) -> (r: String)
        ensures
            r@ == error_message(self@),
    {
        match self {
            MacroError::NoAckWithReturnType => "#[no_ack] functions must not have a return type".to_owned(),
            MacroError::InvalidStreamReturnType => "invalid stream request method return type".to_owned(),
            MacroError::ExpectedIdentifier => "expected identifier".to_owned(),
            MacroError::UnknownNoSerdeParameter(name) => {
                let mut r = "unknown no_serde parameter `".to_owned();
                r.append(name.as_str());
                r.append("`");
                r
            },
            MacroError::NoSerdeKeyValue => "#[no_serde] does not support `key = value` syntax".to_owned(),
            MacroError::MultipleNoSerde => "multiple #[no_serde] attributes found, only one (or none) is allowed".to_owned(),
            MacroError::TransferableImpliesNoSerde =>
                "the #[transferable] attribute automatically implies #[no_serde] - remove the #[no_serde] attribute".to_owned(),
            MacroError::MethodTransferableImpliesNoSerde =>
                "use of the #[transferable]/#[into_transferable] attribute(s) inside API implies #[no_serde] - remove the #[no_serde] attribute".to_owned(),
            MacroError::GenericTrait => "generic traits are not supported in #[api]".to_owned(),
            MacroError::NotAsync => "all api methods must be marked as \"async\"".to_owned(),
            MacroError::GenericMethod => "generic methods are not supported".to_owned(),
            MacroError::TransferableWithSerde =>
                "the #[transferable] and #[into_transferable] attributes are only supported when using SerializationConfig::IntoTransferable".to_owned(),
            MacroError::MethodBothTransferable => "a function cannot be marked with both #[transferable] and #[into_transferable]".to_owned(),
            MacroError::TransferableOnStream =>
                "the #[transferable] attribute is not supported on stream responses, use #[into_transferable] instead".to_owned(),
            MacroError::FieldBothTransferable => "a field cannot be both #[transferable] and #[into_transferable]".to_owned(),
            MacroError::UnionNotSupported => "unions are not supported in #[derive(IntoTransferable)]".to_owned(),
            MacroError::CodecBoundArity => "WrapperLikeTransferable must have exactly one type parameter".to_owned(),
            MacroError::CodecBoundNotSimple => "WrapperLikeTransferable argument must be a simple type identifier".to_owned(),
            MacroError::ConflictingCodecs(a, b) => {
                let mut r = "conflicting WrapperLikeTransferable type arguments: `".to_owned();
                r.append(a.as_str());
                r.append("` vs `");
                r.append(b.as_str());
                r.append("`");
                r
            },
            MacroError::CrateNotFound(name) => {
                let mut r = "crate `".to_owned();
                r.append(name.as_str());
                r.append("` not found in Cargo.toml");
                r
            },
            MacroError::DnetNotFound(name) => {
                let mut r = "neither `dnet` nor `".to_owned();
                r.append(name.as_str());
                r.append("` found in Cargo.toml");
                r
            },
            MacroError::Syntax(message) => message.clone(),
        }
    }
}

/// A result with its error taken by its view.
pub open spec fn err_view<T>(r: Result<T, MacroError>) -> Result<T, MacroErrorView> {
    match r {
        Ok(t) => Ok(t),
        Err(e) => Err(e@),
    }
}

/// Is `text` the same string as `literal`.
pub fn same_text(text: &String, literal: &str) -> (r: bool)
    ensures
        r == (text@ == literal@),
{
    let owned = literal.to_owned();
    text.eq(&owned)
}

/// `segment` is the identifier `name` without arguments.
pub open spec fn plain_segment(segment: SegmentModel, name: Seq<char>) -> bool {
    segment.ident@ == name && !segment.has_arguments
}

/// `path` is the identifier `name` alone (no leading `::`, no arguments).
pub open spec fn is_ident_path(path: PathModel, name: Seq<char>) -> bool {
    !path.leading_colon && path.segments@.len() == 1 && plain_segment(path.segments@[0], name)
}

/// `path` names the `dnet` attribute `name`: `name`, `dnet_rpc::name` or
/// `dnet::rpc::name` (a leading `::` is allowed on the last two).
pub open spec fn names_dnet_attribute(path: PathModel, name: Seq<char>) -> bool {
    let segments = path.segments@;
    ||| is_ident_path(path, name)
    ||| (segments.len() == 2 && plain_segment(segments[0], "dnet_rpc"@) && plain_segment(segments[1], name))
    ||| (segments.len() == 3 && plain_segment(segments[0], "dnet"@) && plain_segment(segments[1], "rpc"@)
        && plain_segment(segments[2], name))
}

/// Some attribute of `attributes` is the `dnet` attribute `name`.
pub open spec fn has_attribute(attributes: Seq<AttributeModel>, name: Seq<char>) -> bool {
    exists|i: int| 0 <= i < attributes.len() && #[trigger] names_dnet_attribute(attributes[i].path, name)
}

fn plain(segment: &SegmentModel, name: &str) -> (r: bool)
    ensures
        r == plain_segment(*segment, name@),
{
    !segment.has_arguments && same_text(&segment.ident, name)
}

/// Is `path` the identifier `name` alone.
pub fn is_ident(path: &PathModel, name: &str) -> (r: bool)
    ensures
        r == is_ident_path(*path, name@),
{
    !path.leading_colon && path.segments.len() == 1 && plain(&path.segments[0], name)
}

/// Does `path` name the `dnet` attribute `ident`.
pub fn is_dnet_attribute(path: &PathModel, ident: &str) -> (r: bool)
    ensures
        r == names_dnet_attribute(*path, ident@),
{
    let n = path.segments.len();
    if is_ident(path, ident) {
        true
    } else if n == 2 {
        plain(&path.segments[0], "dnet_rpc") && plain(&path.segments[1], ident)
    } else if n == 3 {
        plain(&path.segments[0], "dnet") && plain(&path.segments[1], "rpc") && plain(&path.segments[2], ident)
    } else {
        false
    }
}

/// Is `attribute` `#[no_ack]`.
pub fn is_no_ack_attribute(attribute: &AttributeModel) -> (r: bool)
    ensures
        r == names_dnet_attribute(attribute.path, "no_ack"@),
{
    is_dnet_attribute(&attribute.path, "no_ack")
}

/// Is `attribute` `#[abortable]`.
pub fn is_abortable_attribute(attribute: &AttributeModel) -> (r: bool)
    ensures
        r == names_dnet_attribute(attribute.path, "abortable"@),
{
    is_dnet_attribute(&attribute.path, "abortable")
}

/// Is `attribute` `#[no_serde]`.
pub fn is_no_serde_attribute(attribute: &AttributeModel) -> (r: bool)
    ensures
        r == names_dnet_attribute(attribute.path, "no_serde"@),
{
    is_dnet_attribute(&attribute.path, "no_serde")
}

/// Is `attribute` `#[transferable]`.
pub fn is_transferable_attribute(attribute: &AttributeModel) -> (r: bool)
    ensures
        r == names_dnet_attribute(attribute.path, "transferable"@),
{
    is_dnet_attribute(&attribute.path, "transferable")
}

/// Is `attribute` `#[into_transferable]`.
pub fn is_into_transferable_attribute(attribute: &AttributeModel) -> (r: bool)
    ensures
        r == names_dnet_attribute(attribute.path, "into_transferable"@),
{
    is_dnet_attribute(&attribute.path, "into_transferable")
}

/// Is some attribute of `attributes` the `dnet` attribute `name`.
pub fn any_attribute(attributes: &Vec<AttributeModel>, name: &str) -> (r: bool)
    ensures
        r == has_attribute(attributes@, name@),
{
    let mut i: usize = 0;
    while i < attributes.len()
        invariant
            i <= attributes.len(),
            forall|j: int| 0 <= j < i ==> !names_dnet_attribute(#[trigger] attributes@[j].path, name@),
        decreases attributes.len() - i,
    {
        if is_dnet_attribute(&attributes[i].path, name) {
            return true;
        }
        i = i + 1;
    }
    false
}

} // verus!
