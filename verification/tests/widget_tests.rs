use placeholdername::widget::{
    ComponentWidgetType, ComponentWidgetWrapper, NativeUiPropertyValue, WidgetError, WidgetStore,
    kind_from_name,
};

fn props(pairs: Vec<(&str, NativeUiPropertyValue)>) -> Vec<(String, NativeUiPropertyValue)> {
    pairs.into_iter().map(|(k, v)| (k.to_string(), v)).collect()
}

fn child_ids(store: &WidgetStore, w: &ComponentWidgetWrapper) -> Vec<u32> {
    w.get_children(store).unwrap().iter().map(|c| c.id).collect()
}

fn part(store: &mut WidgetStore, id: u32, text: &str) -> ComponentWidgetWrapper {
    ComponentWidgetWrapper::text_part(store, id, text).unwrap()
}

#[test]
fn root_starts_without_children() {
    let mut store = WidgetStore::new();
    let root = ComponentWidgetWrapper::root(&mut store, 1);
    assert_eq!(root.widget_type(&store), ComponentWidgetType::Root);
    assert_eq!(child_ids(&store, &root), Vec::<u32>::new());
    assert_eq!(store.len(), 1);
}

#[test]
fn append_then_get_children_keeps_order() {
    let mut store = WidgetStore::new();
    let root = ComponentWidgetWrapper::root(&mut store, 1);
    let a = part(&mut store, 2, "a");
    let b = part(&mut store, 3, "b");
    root.append_child(&mut store, a).unwrap();
    root.append_child(&mut store, b).unwrap();
    assert_eq!(child_ids(&store, &root), vec![2, 3]);
}

#[test]
fn set_children_then_get_children() {
    let mut store = WidgetStore::new();
    let root = ComponentWidgetWrapper::root(&mut store, 1);
    let a = part(&mut store, 2, "a");
    root.append_child(&mut store, a).unwrap();
    let x = part(&mut store, 5, "x");
    let y = part(&mut store, 4, "y");
    assert_eq!(root.set_children(&mut store, vec![x, y]), Ok(()));
    assert_eq!(child_ids(&store, &root), vec![5, 4]);
}

#[test]
fn setting_the_children_it_has_changes_nothing() {
    let mut store = WidgetStore::new();
    let root = ComponentWidgetWrapper::root(&mut store, 1);
    let a = part(&mut store, 2, "a");
    root.append_child(&mut store, a).unwrap();
    let children = root.get_children(&store).unwrap();
    root.set_children(&mut store, children).unwrap();
    assert_eq!(child_ids(&store, &root), vec![2]);
}

#[test]
fn copies_of_a_handle_share_the_widget() {
    let mut store = WidgetStore::new();
    let root = ComponentWidgetWrapper::root(&mut store, 1);
    let copy = root.clone();
    let a = part(&mut store, 2, "a");
    root.append_child(&mut store, a).unwrap();
    assert_eq!(child_ids(&store, &copy), vec![2]);
    let b = part(&mut store, 3, "b");
    copy.set_children(&mut store, vec![b]).unwrap();
    assert_eq!(child_ids(&store, &root), vec![3]);
}

#[test]
fn handed_out_children_share_the_widget() {
    let mut store = WidgetStore::new();
    let root = ComponentWidgetWrapper::root(&mut store, 1);
    let text = ComponentWidgetWrapper::widget(&mut store, 2, "text", vec![]).unwrap();
    root.append_child(&mut store, text).unwrap();
    let listed = root.get_children(&store).unwrap()[0];
    let x = part(&mut store, 3, "x");
    listed.append_child(&mut store, x).unwrap();
    assert_eq!(child_ids(&store, &text), vec![3]);
    let again = root.get_children(&store).unwrap()[0];
    assert_eq!(child_ids(&store, &again), vec![3]);
}

#[test]
fn text_part_holds_no_children() {
    let mut store = WidgetStore::new();
    let p = part(&mut store, 7, "hello");
    let child = ComponentWidgetWrapper::root(&mut store, 8);
    assert!(matches!(p.get_children(&store), Err(WidgetError::CannotHaveChildren)));
    assert_eq!(p.append_child(&mut store, child), Err(WidgetError::CannotHaveChildren));
    assert_eq!(p.set_children(&mut store, vec![]), Err(WidgetError::CannotHaveChildren));
    assert_eq!(p.widget_type(&store), ComponentWidgetType::TextPart);
}

#[test]
fn separator_holds_no_children() {
    let mut store = WidgetStore::new();
    let sep = ComponentWidgetWrapper::widget(&mut store, 3, "separator", vec![]).unwrap();
    let root = ComponentWidgetWrapper::root(&mut store, 4);
    assert_eq!(sep.append_child(&mut store, root), Err(WidgetError::CannotHaveChildren));
}

#[test]
fn created_widget_reports_its_type_name() {
    let mut store = WidgetStore::new();
    for name in [
        "text", "link", "tag", "metadata_item", "separator", "metadata", "image", "h1", "h2",
        "h3", "h4", "h5", "h6", "horizontal_break", "code_block", "code", "content", "detail",
    ] {
        let properties = if name == "link" {
            props(vec![("href", NativeUiPropertyValue::String("https://x".to_string()))])
        } else {
            vec![]
        };
        let w = ComponentWidgetWrapper::widget(&mut store, 42, name, properties).unwrap();
        let native = w.as_native_widget(&store);
        assert_eq!(native.widget_id, 42);
        assert_eq!(native.widget_type, name);
    }
}

#[test]
fn root_and_text_part_report_their_names() {
    let mut store = WidgetStore::new();
    let root = ComponentWidgetWrapper::root(&mut store, 1);
    let p = part(&mut store, 2, "t");
    assert_eq!(root.as_native_widget(&store).widget_type, "root");
    assert_eq!(p.as_native_widget(&store).widget_type, "text_part");
}

#[test]
fn unknown_widget_type_is_refused() {
    let mut store = WidgetStore::new();
    for name in ["button", "root", "text_part"] {
        assert!(matches!(
            ComponentWidgetWrapper::widget(&mut store, 1, name, vec![]),
            Err(WidgetError::UnknownWidgetType)
        ));
    }
    assert_eq!(store.len(), 0);
    assert_eq!(kind_from_name("Text"), None);
    assert_eq!(kind_from_name("h3"), Some(ComponentWidgetType::H3));
}

#[test]
fn link_needs_a_string_href() {
    let mut store = WidgetStore::new();
    assert!(matches!(
        ComponentWidgetWrapper::widget(&mut store, 1, "link", vec![]),
        Err(WidgetError::MissingProperty)
    ));
    assert!(matches!(
        ComponentWidgetWrapper::widget(&mut store, 1, "link", props(vec![("href", NativeUiPropertyValue::Bool(true))])),
        Err(WidgetError::InvalidPropertyType)
    ));
    assert!(matches!(
        ComponentWidgetWrapper::widget(
            &mut store,
            1,
            "link",
            props(vec![("href", NativeUiPropertyValue::Number(1.5f64.to_bits()))])
        ),
        Err(WidgetError::InvalidPropertyType)
    ));
    let ok = ComponentWidgetWrapper::widget(
        &mut store,
        1,
        "link",
        props(vec![("href", NativeUiPropertyValue::String("https://a".to_string()))]),
    );
    assert!(ok.is_ok());
}

#[test]
fn tag_properties() {
    let mut store = WidgetStore::new();
    let ok = ComponentWidgetWrapper::widget(
        &mut store,
        1,
        "tag",
        props(vec![
            ("color", NativeUiPropertyValue::String("red".to_string())),
            ("onClick", NativeUiPropertyValue::Function),
        ]),
    );
    assert!(ok.is_ok());
    assert!(ComponentWidgetWrapper::widget(&mut store, 1, "tag", vec![]).is_ok());
    assert!(matches!(
        ComponentWidgetWrapper::widget(&mut store, 1, "tag", props(vec![("color", NativeUiPropertyValue::Bool(true))])),
        Err(WidgetError::InvalidPropertyType)
    ));
    assert!(matches!(
        ComponentWidgetWrapper::widget(
            &mut store,
            1,
            "tag",
            props(vec![("onClick", NativeUiPropertyValue::String("f".to_string()))])
        ),
        Err(WidgetError::InvalidPropertyType)
    ));
}

#[test]
fn internal_names() {
    assert_eq!(ComponentWidgetType::MetadataItem.internal_name(), "metadata_item");
    assert_eq!(ComponentWidgetType::HorizontalBreak.internal_name(), "horizontal_break");
    assert_eq!(ComponentWidgetType::CodeBlock.internal_name(), "code_block");
}

#[test]
fn type_names_lead_back_to_their_kind() {
    let kinds = [
        ComponentWidgetType::Text,
        ComponentWidgetType::Link,
        ComponentWidgetType::Tag,
        ComponentWidgetType::MetadataItem,
        ComponentWidgetType::Separator,
        ComponentWidgetType::Metadata,
        ComponentWidgetType::Image,
        ComponentWidgetType::H1,
        ComponentWidgetType::H2,
        ComponentWidgetType::H3,
        ComponentWidgetType::H4,
        ComponentWidgetType::H5,
        ComponentWidgetType::H6,
        ComponentWidgetType::HorizontalBreak,
        ComponentWidgetType::CodeBlock,
        ComponentWidgetType::Code,
        ComponentWidgetType::Content,
        ComponentWidgetType::Detail,
    ];
    for kind in kinds {
        assert_eq!(kind_from_name(&kind.internal_name()), Some(kind));
    }
}
