use dnet::macros::api::{
    api_plan, api_serialization, expand_api, no_serde_attribute, request_response_derive, ApiModel,
    ApiSerializationConfig, DerivedTrait, SerdeConfig, SerializationConfig,
};
use dnet::macros::methods::{
    extract_return_type, is_abortable, is_no_ack, is_stream, method_plan, patternize_arguments, request_shape,
    skip_self, transferable_attribute, ArgumentsModel, BoundModel, BoundSegmentModel, FnArgModel,
    GenericArgumentModel, MethodKind, MethodModel, RequestShape, ReturnModel, TransferMarker, TypeModel,
    response_handler, ResponseHandler,
};
use dnet::macros::paths::{crate_path, dnet_dependency_path, make_path, FoundCrate};
use dnet::macros::transferable::{
    actual_new_param_name, extract_codec_param_name, generated_names, has_into_transferables,
    into_transferable_plan, process_fields, process_variants, retained_attributes, BoundArgumentsModel, PlannedField,
    CodecArgumentModel, DataKind, FieldModel, FieldRole, LastSegmentModel,
};
use dnet::macros::{is_dnet_attribute, AttributeModel, MacroError, MetaModel, PathModel, SegmentModel};

fn path(leading_colon: bool, segments: &[&str]) -> PathModel {
    PathModel {
        leading_colon,
        segments: segments
            .iter()
            .map(|s| SegmentModel { ident: s.to_string(), has_arguments: false })
            .collect(),
    }
}

fn attribute(segments: &[&str]) -> AttributeModel {
    AttributeModel { path: path(false, segments), meta: MetaModel::Path }
}

fn full_attribute(segments: &[&str]) -> AttributeModel {
    AttributeModel { path: path(true, segments), meta: MetaModel::Path }
}

fn typed(name: &str, ty: &str) -> FnArgModel {
    FnArgModel::Typed { attributes: vec![], name: Some(name.to_string()), ty: ty.to_string() }
}

fn stream_of(item: &str) -> ReturnModel {
    ReturnModel::Type(TypeModel::ImplTrait(vec![BoundModel::Trait(vec![BoundSegmentModel {
        ident: "Stream".to_string(),
        arguments: ArgumentsModel::AngleBracketed(vec![GenericArgumentModel::AssocType {
            ident: "Item".to_string(),
            ty: item.to_string(),
        }]),
    }])]))
}

fn value_of(ty: &str) -> ReturnModel {
    ReturnModel::Type(TypeModel::Other(ty.to_string()))
}

fn method(attributes: Vec<AttributeModel>, name: &str, inputs: Vec<FnArgModel>, output: ReturnModel) -> MethodModel {
    MethodModel { attributes, name: name.to_string(), is_async: true, is_generic: false, inputs, output }
}

/// `fn some_function(&self, a: u32, b: String)` with the given output.
fn some_function(attributes: Vec<AttributeModel>, output: ReturnModel) -> MethodModel {
    method(attributes, "some_function", vec![FnArgModel::Receiver, typed("a", "u32"), typed("b", "String")], output)
}

fn api_methods() -> Vec<MethodModel> {
    vec![
        method(vec![attribute(&["no_ack"])], "hello_world", vec![FnArgModel::Receiver], ReturnModel::Default),
        method(vec![], "wait_for_ack", vec![FnArgModel::Receiver], ReturnModel::Default),
        method(vec![], "add_numbers", vec![FnArgModel::Receiver, typed("a", "i32"), typed("b", "i32")], value_of("i32")),
        method(
            vec![],
            "concatenate_strings",
            vec![FnArgModel::Receiver, typed("a", "String"), typed("b", "String")],
            value_of("String"),
        ),
        method(vec![], "stream_natural_numbers", vec![FnArgModel::Receiver], stream_of("usize")),
        method(vec![], "stream_time", vec![FnArgModel::Receiver, typed("interval", "Duration")], stream_of("NaiveTime")),
        method(vec![attribute(&["abortable"])], "long_running_task", vec![FnArgModel::Receiver, typed("input", "u32")], value_of("String")),
    ]
}

fn api() -> ApiModel {
    ApiModel { attributes: vec![], is_generic: false, methods: api_methods() }
}

#[test]
fn test_skip_self() {
    let signature = some_function(vec![], value_of("i32"));
    let kept = skip_self(&signature.inputs);
    let rendered: Vec<String> = kept
        .iter()
        .map(|&i| match &signature.inputs[i] {
            FnArgModel::Typed { name: Some(name), ty, .. } => format!("{name}: {ty}"),
            _ => unreachable!(),
        })
        .collect();
    assert_eq!(rendered.join(", "), "a: u32, b: String");
}

#[test]
fn test_extract_return_type_default() {
    let signature = some_function(vec![], ReturnModel::Default);
    assert_eq!(extract_return_type(&signature.output).unwrap(), "()");
}

#[test]
fn test_extract_return_type_regular() {
    let signature = some_function(vec![], value_of("i32"));
    assert_eq!(extract_return_type(&signature.output).unwrap(), "i32");
}

#[test]
fn test_extract_return_type_stream() {
    let signature = some_function(vec![], stream_of("usize"));
    assert_eq!(extract_return_type(&signature.output).unwrap(), "usize");
}

#[test]
fn extract_return_type_rejects_other_impl_types() {
    let output = ReturnModel::Type(TypeModel::ImplTrait(vec![BoundModel::Trait(vec![BoundSegmentModel {
        ident: "Iterator".to_string(),
        arguments: ArgumentsModel::Bare,
    }])]));
    assert_eq!(extract_return_type(&output), Err(MacroError::InvalidStreamReturnType));
    assert_eq!(
        MacroError::InvalidStreamReturnType.message(),
        "invalid stream request method return type"
    );
}

#[test]
fn test_actual_new_param_name() {
    let none: Vec<String> = vec![];
    assert_eq!(actual_new_param_name(&none, "C"), "C");
    let one = vec!["C".to_string()];
    assert_eq!(actual_new_param_name(&one, "C"), "C2");
    let two = vec!["C".to_string(), "C2".to_string()];
    assert_eq!(actual_new_param_name(&two, "C"), "C3");
}

#[test]
fn actual_new_param_name_skips_every_taken_name() {
    let names: Vec<String> = vec!["'a", "C3", "C", "T", "C2"].into_iter().map(String::from).collect();
    assert_eq!(actual_new_param_name(&names, "C"), "C4");
}

#[test]
fn test_is_stream_false() {
    let signature = some_function(vec![], value_of("i32"));
    assert!(!is_stream(&signature.output));
}

#[test]
fn test_is_stream_true() {
    let signature = some_function(vec![], stream_of("i32"));
    assert!(is_stream(&signature.output));
}

#[test]
fn test_patternize_arguments() {
    let signature = some_function(vec![], ReturnModel::Default);
    assert_eq!(patternize_arguments(&signature.inputs).join(", "), "a, b");
}

#[test]
fn test_is_no_ack_false() {
    let method = some_function(vec![], ReturnModel::Default);
    assert!(!is_no_ack(&method).unwrap());
}

#[test]
fn test_is_no_ack_true() {
    let method = some_function(vec![attribute(&["no_ack"])], ReturnModel::Default);
    assert!(is_no_ack(&method).unwrap());
}

#[test]
fn test_is_no_ack_true_full_path() {
    let method = some_function(vec![full_attribute(&["dnet_rpc", "no_ack"])], ReturnModel::Default);
    assert!(is_no_ack(&method).unwrap());
}

#[test]
fn test_is_no_ack_true_full_path_from_dnet() {
    let method = some_function(vec![full_attribute(&["dnet", "rpc", "no_ack"])], ReturnModel::Default);
    assert!(is_no_ack(&method).unwrap());
}

#[test]
#[should_panic = "#[no_ack] functions must not have a return type"]
fn test_is_no_ack_panic() {
    let method = some_function(vec![attribute(&["no_ack"])], value_of("u32"));
    let is_no_ack = is_no_ack(&method).map_err(|error| error.message()).unwrap();
    assert!(is_no_ack);
}

#[test]
fn test_is_abortable_false() {
    let method = some_function(vec![], ReturnModel::Default);
    assert!(!is_abortable(&method));
}

#[test]
fn test_is_abortable_true() {
    let method = some_function(vec![attribute(&["abortable"])], ReturnModel::Default);
    assert!(is_abortable(&method));
}

#[test]
fn test_is_abortable_true_full_path() {
    let method = some_function(vec![full_attribute(&["dnet_rpc", "abortable"])], ReturnModel::Default);
    assert!(is_abortable(&method));
}

#[test]
fn test_is_abortable_true_full_path_from_dnet() {
    let method = some_function(vec![full_attribute(&["dnet", "rpc", "abortable"])], ReturnModel::Default);
    assert!(is_abortable(&method));
}

#[test]
fn dnet_attribute_paths() {
    assert!(is_dnet_attribute(&path(false, &["no_ack"]), "no_ack"));
    assert!(!is_dnet_attribute(&path(true, &["no_ack"]), "no_ack"));
    assert!(!is_dnet_attribute(&path(false, &["other", "no_ack"]), "no_ack"));
    assert!(!is_dnet_attribute(&path(false, &["dnet", "no_ack"]), "no_ack"));
    let mut with_arguments = path(false, &["no_ack"]);
    with_arguments.segments[0].has_arguments = true;
    assert!(!is_dnet_attribute(&with_arguments, "no_ack"));
}

#[test]
fn modified_trait_request_shapes() {
    let methods = api_methods();
    let shapes: Vec<String> = methods
        .iter()
        .map(|m| match request_shape(m).unwrap() {
            RequestShape::Value(t) => format!("ValueRequest<Request, {t}>"),
            RequestShape::Stream(t) => format!("StreamRequest<Request, {t}>"),
        })
        .collect();
    assert_eq!(
        shapes,
        vec![
            "ValueRequest<Request, ()>",
            "ValueRequest<Request, ()>",
            "ValueRequest<Request, i32>",
            "ValueRequest<Request, String>",
            "StreamRequest<Request, usize>",
            "StreamRequest<Request, NaiveTime>",
            "ValueRequest<Request, String>",
        ]
    );
}

#[test]
fn modify_trait_errors() {
    let mut m = some_function(vec![], ReturnModel::Default);
    m.is_async = false;
    assert_eq!(request_shape(&m).unwrap_err(), MacroError::NotAsync);
    assert_eq!(MacroError::NotAsync.message(), "all api methods must be marked as \"async\"");
    let mut m = some_function(vec![], ReturnModel::Default);
    m.is_generic = true;
    assert_eq!(request_shape(&m).unwrap_err(), MacroError::GenericMethod);
    let mut generic = api();
    generic.is_generic = true;
    assert_eq!(expand_api(&generic).unwrap_err(), MacroError::GenericTrait);
}

#[test]
fn request_variants_and_derives() {
    let plan = expand_api(&api()).unwrap();
    let variants: Vec<String> = plan
        .methods
        .iter()
        .map(|m| format!("{} {{ {} }}", m.variant, m.arguments.join(", ")))
        .collect();
    assert_eq!(
        variants,
        vec![
            "HelloWorld {  }",
            "WaitForAck {  }",
            "AddNumbers { a, b }",
            "ConcatenateStrings { a, b }",
            "StreamNaturalNumbers {  }",
            "StreamTime { interval }",
            "LongRunningTask { input }",
        ]
    );
    assert_eq!(
        request_response_derive(plan.config.request),
        vec![DerivedTrait::Debug, DerivedTrait::Clone, DerivedTrait::Serialize, DerivedTrait::Deserialize]
    );
}

#[test]
fn no_serde_removes_serde_derives() {
    let mut api = api();
    api.attributes.push(attribute(&["no_serde"]));
    let plan = expand_api(&api).unwrap();
    assert_eq!(request_response_derive(plan.config.request), vec![DerivedTrait::Debug, DerivedTrait::Clone]);
    assert_eq!(request_response_derive(plan.config.response), vec![DerivedTrait::Debug, DerivedTrait::Clone]);
}

fn no_serde_list(names: &[&str]) -> AttributeModel {
    AttributeModel {
        path: path(false, &["no_serde"]),
        meta: MetaModel::List(Ok(names.iter().map(|n| path(false, &[n])).collect())),
    }
}

#[test]
fn no_serde_request_serialize() {
    let mut api = api();
    api.attributes.push(no_serde_list(&["request_serialize"]));
    let config = api_serialization(&api).unwrap();
    assert_eq!(request_response_derive(config.request), vec![DerivedTrait::Debug, DerivedTrait::Clone, DerivedTrait::Deserialize]);
    assert_eq!(config.response, SerializationConfig::Serde(SerdeConfig::all()));
}

#[test]
fn no_serde_request_deserialize() {
    let mut api = api();
    api.attributes.push(no_serde_list(&["request_deserialize"]));
    let config = api_serialization(&api).unwrap();
    assert_eq!(request_response_derive(config.request), vec![DerivedTrait::Debug, DerivedTrait::Clone, DerivedTrait::Serialize]);
}

fn transferable_api() -> ApiModel {
    ApiModel {
        attributes: vec![],
        is_generic: false,
        methods: vec![
            method(
                vec![],
                "send_transferable",
                vec![
                    FnArgModel::Receiver,
                    FnArgModel::Typed {
                        attributes: vec![attribute(&["transferable"])],
                        name: Some("data".to_string()),
                        ty: "OffscreenCanvas".to_string(),
                    },
                ],
                ReturnModel::Default,
            ),
            method(vec![attribute(&["into_transferable"])], "get_data", vec![FnArgModel::Receiver], value_of("Data")),
        ],
    }
}

#[test]
fn transferable_api_request_plan() {
    let plan = expand_api(&transferable_api()).unwrap();
    assert_eq!(plan.config.request, SerializationConfig::IntoTransferable);
    assert_eq!(
        request_response_derive(plan.config.request),
        vec![DerivedTrait::Debug, DerivedTrait::Clone, DerivedTrait::IntoTransferable]
    );
    assert_eq!(plan.methods[0].variant, "SendTransferable");
    assert_eq!(plan.methods[0].arguments, vec!["data".to_string()]);
}

#[test]
fn response_variants_of_answered_methods() {
    let plan = expand_api(&api()).unwrap();
    let responses: Vec<String> = plan
        .methods
        .iter()
        .filter(|m| m.kind != MethodKind::NoAck)
        .map(|m| match m.kind {
            MethodKind::Stream => format!("{}(StreamResponse<{}>)", m.variant, m.return_type),
            _ => format!("{}({})", m.variant, m.return_type),
        })
        .collect();
    assert_eq!(
        responses,
        vec![
            "WaitForAck(())",
            "AddNumbers(i32)",
            "ConcatenateStrings(String)",
            "StreamNaturalNumbers(StreamResponse<usize>)",
            "StreamTime(StreamResponse<NaiveTime>)",
            "LongRunningTask(String)",
        ]
    );
    assert!(plan.markers.iter().all(|m| *m == TransferMarker::Plain));
}

#[test]
fn no_serde_response() {
    let mut api = api();
    api.attributes.push(no_serde_list(&["response"]));
    let config = api_serialization(&api).unwrap();
    assert_eq!(config.response, SerializationConfig::Serde(SerdeConfig::none()));
    assert_eq!(config.request, SerializationConfig::Serde(SerdeConfig::all()));
}

#[test]
fn no_serde_response_serialize() {
    let mut api = api();
    api.attributes.push(no_serde_list(&["response_serialize"]));
    let config = api_serialization(&api).unwrap();
    assert_eq!(request_response_derive(config.response), vec![DerivedTrait::Debug, DerivedTrait::Clone, DerivedTrait::Deserialize]);
}

#[test]
fn no_serde_response_deserialize() {
    let mut api = api();
    api.attributes.push(no_serde_list(&["response_deserialize"]));
    let config = api_serialization(&api).unwrap();
    assert_eq!(request_response_derive(config.response), vec![DerivedTrait::Debug, DerivedTrait::Clone, DerivedTrait::Serialize]);
}

#[test]
fn transferable_api_response_markers() {
    let plan = expand_api(&transferable_api()).unwrap();
    assert_eq!(plan.markers, vec![TransferMarker::Plain, TransferMarker::IntoTransferable]);
    assert_eq!(plan.methods[1].variant, "GetData");
    assert_eq!(plan.methods[1].return_type, "Data");
}

#[test]
fn consumer_sender_fields() {
    let plan = expand_api(&api()).unwrap();
    let senders: Vec<String> = plan
        .methods
        .iter()
        .map(|m| format!("{}__sender: RequestSender<Request, {}>", m.field, m.return_type))
        .collect();
    assert_eq!(
        senders,
        vec![
            "hello_world__sender: RequestSender<Request, ()>",
            "wait_for_ack__sender: RequestSender<Request, ()>",
            "add_numbers__sender: RequestSender<Request, i32>",
            "concatenate_strings__sender: RequestSender<Request, String>",
            "stream_natural_numbers__sender: RequestSender<Request, usize>",
            "stream_time__sender: RequestSender<Request, NaiveTime>",
            "long_running_task__sender: RequestSender<Request, String>",
        ]
    );
}

#[test]
fn producer_dispatch_kinds() {
    let plan = expand_api(&api()).unwrap();
    let kinds: Vec<(MethodKind, bool)> = plan.methods.iter().map(|m| (m.kind, m.abortable)).collect();
    assert_eq!(
        kinds,
        vec![
            (MethodKind::NoAck, false),
            (MethodKind::Value, false),
            (MethodKind::Value, false),
            (MethodKind::Value, false),
            (MethodKind::Stream, false),
            (MethodKind::Stream, false),
            (MethodKind::Value, true),
        ]
    );
}

#[test]
fn no_serde_errors() {
    let mut twice = api();
    twice.attributes.push(attribute(&["no_serde"]));
    twice.attributes.push(attribute(&["no_serde"]));
    assert_eq!(no_serde_attribute(&twice.attributes), Err(MacroError::MultipleNoSerde));
    assert_eq!(expand_api(&twice).unwrap_err(), MacroError::MultipleNoSerde);

    let unknown = no_serde_list(&["everything"]);
    assert_eq!(
        ApiSerializationConfig::from_no_serde_attribute(&unknown),
        Err(MacroError::UnknownNoSerdeParameter("everything".to_string()))
    );
    assert_eq!(
        MacroError::UnknownNoSerdeParameter("everything".to_string()).message(),
        "unknown no_serde parameter `everything`"
    );
    let key_value = AttributeModel { path: path(false, &["no_serde"]), meta: MetaModel::NameValue };
    assert_eq!(ApiSerializationConfig::from_no_serde_attribute(&key_value), Err(MacroError::NoSerdeKeyValue));
    let not_ident = AttributeModel {
        path: path(false, &["no_serde"]),
        meta: MetaModel::List(Ok(vec![path(false, &["a", "b"])])),
    };
    assert_eq!(ApiSerializationConfig::from_no_serde_attribute(&not_ident), Err(MacroError::ExpectedIdentifier));

    let mut both = transferable_api();
    both.attributes.push(attribute(&["no_serde"]));
    assert_eq!(expand_api(&both).unwrap_err(), MacroError::MethodTransferableImpliesNoSerde);
    let mut on_trait = api();
    on_trait.attributes.push(attribute(&["no_serde"]));
    on_trait.attributes.push(attribute(&["transferable"]));
    assert_eq!(expand_api(&on_trait).unwrap_err(), MacroError::TransferableImpliesNoSerde);
}

#[test]
fn no_ack_with_return_type_is_refused_for_the_whole_api() {
    let mut api = api();
    api.methods.push(method(vec![attribute(&["no_ack"])], "broken", vec![FnArgModel::Receiver], stream_of("u8")));
    assert_eq!(expand_api(&api).unwrap_err(), MacroError::NoAckWithReturnType);
    assert_eq!(method_plan(&api.methods[7]).unwrap_err(), MacroError::NoAckWithReturnType);
}

#[test]
fn transfer_markers() {
    let m = method(vec![attribute(&["transferable"])], "f", vec![], value_of("u8"));
    assert_eq!(transferable_attribute(false, &m, false), Err(MacroError::TransferableWithSerde));
    assert_eq!(transferable_attribute(true, &m, false), Ok(TransferMarker::Transferable));
    assert_eq!(transferable_attribute(true, &m, true), Err(MacroError::TransferableOnStream));
    let both = method(vec![attribute(&["transferable"]), attribute(&["into_transferable"])], "f", vec![], value_of("u8"));
    assert_eq!(transferable_attribute(true, &both, false), Err(MacroError::MethodBothTransferable));
    let plan = api_plan(&api(), ApiSerializationConfig::default());
    assert!(plan.is_ok());
}

#[test]
fn dependency_paths() {
    let dnet = Some(FoundCrate::Name("dnet".to_string()));
    assert_eq!(dnet_dependency_path("rpc", &dnet, &None).unwrap(), vec!["dnet", "rpc"]);
    assert_eq!(dnet_dependency_path("base", &dnet, &None).unwrap(), vec!["dnet"]);
    assert_eq!(dnet_dependency_path("rpc", &Some(FoundCrate::Itself), &None).unwrap(), vec!["dnet", "rpc"]);
    let rpc = Some(FoundCrate::Name("dnet_rpc".to_string()));
    assert_eq!(dnet_dependency_path("rpc", &None, &rpc).unwrap(), vec!["dnet_rpc"]);
    assert_eq!(dnet_dependency_path("rpc", &None, &Some(FoundCrate::Itself)).unwrap(), vec!["crate"]);
    let error = dnet_dependency_path("js", &None, &None).unwrap_err();
    assert_eq!(error.message(), "neither `dnet` nor `dnet-js` found in Cargo.toml");
    assert_eq!(crate_path("serde", &Some(FoundCrate::Name("serde".to_string()))).unwrap(), vec!["serde"]);
    assert_eq!(crate_path("serde", &None).unwrap_err().message(), "crate `serde` not found in Cargo.toml");
    let made = make_path(&vec!["dnet_rpc".to_string(), "parts".to_string()]);
    assert!(made.leading_colon);
    assert_eq!(made.segments.len(), 2);
    assert!(!make_path(&vec!["crate".to_string()]).leading_colon);
}

fn field(attributes: Vec<AttributeModel>, ident: Option<&str>) -> FieldModel {
    FieldModel { attributes, ident: ident.map(String::from) }
}

#[test]
fn fields_are_split_by_markers() {
    let fields = vec![
        field(vec![], Some("a")),
        field(vec![attribute(&["transferable"])], Some("b")),
        field(vec![attribute(&["into_transferable"])], Some("c")),
    ];
    let plan = process_fields(&fields, &vec!["T".to_string()], "C").unwrap();
    assert_eq!(plan.names, vec!["a", "b", "c"]);
    assert_eq!(plan.roles, vec![FieldRole::Stripped, FieldRole::Transferable, FieldRole::IntoTransferable]);
    assert!(!plan.were_unnamed);
    assert!(has_into_transferables(&plan.roles));
    assert_eq!(
        plan.stripped,
        vec![
            PlannedField::Field { index: 0, attributes: vec![] },
            PlannedField::PhantomData { name: "_phantom_data__".to_string(), params: vec!["T".to_string()] },
        ]
    );
    assert_eq!(plan.stripped_names, vec!["a"]);
    assert_eq!(plan.transferables_names, vec!["b"]);
    assert_eq!(
        plan.into_transferables,
        vec![
            PlannedField::Field { index: 2, attributes: vec![] },
            PlannedField::PhantomData {
                name: "_phantom_data__".to_string(),
                params: vec!["T".to_string(), "C".to_string()],
            },
        ]
    );
    assert_eq!(plan.into_transferables_names, vec!["c"]);
}

#[test]
fn unnamed_fields_are_named_by_position() {
    let fields = vec![field(vec![], None), field(vec![], None), field(vec![], None)];
    let plan = process_fields(&fields, &vec![], "C").unwrap();
    assert_eq!(plan.names, vec!["unnamed_field_0", "unnamed_field_1", "unnamed_field_2"]);
    assert_eq!(plan.stripped_names, plan.names);
    assert_eq!(plan.stripped.len(), 4);
    assert_eq!(
        plan.into_transferables,
        vec![PlannedField::PhantomData { name: "_phantom_data__".to_string(), params: vec!["C".to_string()] }]
    );
    assert!(plan.were_unnamed);
    assert!(!has_into_transferables(&plan.roles));
}

#[test]
fn field_with_both_markers_is_refused() {
    let fields = vec![field(vec![attribute(&["transferable"]), attribute(&["into_transferable"])], Some("x"))];
    assert_eq!(process_fields(&fields, &vec![], "C").unwrap_err(), MacroError::FieldBothTransferable);
    let variants = vec![vec![field(vec![], Some("ok"))], fields];
    assert_eq!(process_variants(&variants, &vec![], "C").unwrap_err(), MacroError::FieldBothTransferable);
    let plans = process_variants(&vec![vec![field(vec![], Some("ok"))]], &vec![], "C").unwrap();
    assert_eq!(plans[0].stripped_names, vec!["ok"]);
}

#[test]
fn retained_attribute_positions() {
    let attributes = vec![attribute(&["doc"]), attribute(&["transferable"]), attribute(&["into_transferable"])];
    assert_eq!(retained_attributes(&attributes, true), vec![0]);
    assert_eq!(retained_attributes(&attributes, false), vec![0, 1]);
}

fn codec_bound(argument: CodecArgumentModel) -> LastSegmentModel {
    LastSegmentModel {
        ident: "WrapperLikeTransferable".to_string(),
        arguments: BoundArgumentsModel::AngleBracketed(vec![argument]),
    }
}

#[test]
fn codec_parameter() {
    assert_eq!(extract_codec_param_name(&vec![]), Ok(None));
    let bounds = vec![
        LastSegmentModel { ident: "Clone".to_string(), arguments: BoundArgumentsModel::NotAngleBracketed },
        codec_bound(CodecArgumentModel::SimpleType("Codec".to_string())),
        codec_bound(CodecArgumentModel::SimpleType("Codec".to_string())),
    ];
    assert_eq!(extract_codec_param_name(&bounds), Ok(Some("Codec".to_string())));
    let conflicting = vec![
        codec_bound(CodecArgumentModel::SimpleType("A".to_string())),
        codec_bound(CodecArgumentModel::SimpleType("B".to_string())),
    ];
    let error = extract_codec_param_name(&conflicting).unwrap_err();
    assert_eq!(error.message(), "conflicting WrapperLikeTransferable type arguments: `A` vs `B`");
    assert_eq!(
        extract_codec_param_name(&vec![codec_bound(CodecArgumentModel::OtherType)]),
        Err(MacroError::CodecBoundNotSimple)
    );
    let bare = LastSegmentModel {
        ident: "WrapperLikeTransferable".to_string(),
        arguments: BoundArgumentsModel::NotAngleBracketed,
    };
    assert_eq!(extract_codec_param_name(&vec![bare]), Err(MacroError::CodecBoundArity));
}

#[test]
fn into_transferable_plans() {
    let names = generated_names("Data");
    assert_eq!(names.into_transferables, "DataIntoTransferables");
    assert_eq!(names.stripped, "DataStripped");
    assert_eq!(names.wrapper, "DataWrapper");
    let params = vec!["C".to_string()];
    let plan = into_transferable_plan("Data", &params, &vec![], DataKind::Struct).unwrap();
    assert_eq!(plan.codec, "C2");
    assert!(plan.append_codec);
    let bounds = vec![codec_bound(CodecArgumentModel::SimpleType("Codec".to_string()))];
    let plan = into_transferable_plan("Data", &params, &bounds, DataKind::Enum).unwrap();
    assert_eq!(plan.codec, "Codec");
    assert!(!plan.append_codec);
    let error = into_transferable_plan("Data", &params, &vec![], DataKind::Union).unwrap_err();
    assert_eq!(error.message(), "unions are not supported in #[derive(IntoTransferable)]");
}

#[test]
fn consumer_routes_responses_by_method_kind() {
    let plan = expand_api(&api()).unwrap();
    let handlers: Vec<Option<ResponseHandler>> = plan.methods.iter().map(|m| response_handler(m.kind)).collect();
    assert_eq!(
        handlers,
        vec![
            None,
            Some(ResponseHandler::Value),
            Some(ResponseHandler::Value),
            Some(ResponseHandler::Value),
            Some(ResponseHandler::Stream),
            Some(ResponseHandler::Stream),
            Some(ResponseHandler::Value),
        ]
    );
}
