use placeholdername::event::DbusEventViewEvent;
use placeholdername::render::{
    ButtonStyle, ComponentRenderContext, ComponentWidgetEvent, RenderError, RenderedElement,
    render_child_by_type, render_children, render_children_by_type,
};
use placeholdername::widget::{
    ComponentWidgetType, ComponentWidgetWrapper, NativeUiPropertyValue, WidgetStore,
};

fn w(store: &mut WidgetStore, id: u32, name: &str) -> ComponentWidgetWrapper {
    ComponentWidgetWrapper::widget(store, id, name, vec![]).unwrap()
}

fn part(store: &mut WidgetStore, id: u32, text: &str) -> ComponentWidgetWrapper {
    ComponentWidgetWrapper::text_part(store, id, text).unwrap()
}

fn with_children(
    store: &mut WidgetStore,
    parent: ComponentWidgetWrapper,
    children: Vec<ComponentWidgetWrapper>,
) -> ComponentWidgetWrapper {
    for c in children {
        parent.append_child(store, c).unwrap();
    }
    parent
}

fn text_of(e: &RenderedElement) -> (String, Option<u16>) {
    match e {
        RenderedElement::Text { text, size } => (text.clone(), *size),
        _ => panic!("not a text"),
    }
}

#[test]
fn text_part_sizes_per_heading() {
    let mut store = WidgetStore::new();
    let p = part(&mut store, 1, "hi");
    assert_eq!(text_of(&p.render_widget(&store, ComponentRenderContext::Plain)), ("hi".to_string(), None));
    let expected = [
        (ComponentRenderContext::H1, 34),
        (ComponentRenderContext::H2, 30),
        (ComponentRenderContext::H3, 24),
        (ComponentRenderContext::H4, 20),
        (ComponentRenderContext::H5, 18),
        (ComponentRenderContext::H6, 16),
    ];
    for (context, size) in expected {
        assert_eq!(text_of(&p.render_widget(&store, context)), ("hi".to_string(), Some(size)));
        assert_eq!(context.text_size(), Some(size));
    }
}

#[test]
fn heading_passes_its_size_to_text() {
    let mut store = WidgetStore::new();
    let h2 = w(&mut store, 1, "h2");
    let t = part(&mut store, 2, "title");
    let h2 = with_children(&mut store, h2, vec![t]);
    match h2.render_widget(&store, ComponentRenderContext::Plain) {
        RenderedElement::Row(v) => {
            assert_eq!(v.len(), 1);
            assert_eq!(text_of(&v[0]), ("title".to_string(), Some(30)));
        }
        _ => panic!("expected a row"),
    }
}

#[test]
fn text_keeps_the_context_it_is_rendered_in() {
    let mut store = WidgetStore::new();
    let text = w(&mut store, 1, "text");
    let a = part(&mut store, 2, "a");
    let b = part(&mut store, 3, "b");
    let text = with_children(&mut store, text, vec![a, b]);
    match text.render_widget(&store, ComponentRenderContext::H4) {
        RenderedElement::Row(v) => {
            assert_eq!(text_of(&v[0]), ("a".to_string(), Some(20)));
            assert_eq!(text_of(&v[1]), ("b".to_string(), Some(20)));
        }
        _ => panic!("expected a row"),
    }
}

#[test]
fn link_is_a_link_button_reporting_its_href() {
    let mut store = WidgetStore::new();
    let link = ComponentWidgetWrapper::widget(
        &mut store,
        5,
        "link",
        vec![("href".to_string(), NativeUiPropertyValue::String("https://example.org".to_string()))],
    )
    .unwrap();
    let go = part(&mut store, 6, "go");
    let link = with_children(&mut store, link, vec![go]);
    match link.render_widget(&store, ComponentRenderContext::H1) {
        RenderedElement::Button { content, style, on_press } => {
            assert_eq!(style, ButtonStyle::Link);
            match on_press {
                ComponentWidgetEvent::LinkClick { href } => assert_eq!(href, "https://example.org"),
                _ => panic!("expected a link click"),
            }
            match *content {
                RenderedElement::Row(v) => assert_eq!(text_of(&v[0]), ("go".to_string(), None)),
                _ => panic!("expected a row"),
            }
        }
        _ => panic!("expected a button"),
    }
}

#[test]
fn tag_reports_its_widget() {
    let mut store = WidgetStore::new();
    let tag = w(&mut store, 9, "tag");
    let label = part(&mut store, 10, "label");
    let tag = with_children(&mut store, tag, vec![label]);
    match tag.render_widget(&store, ComponentRenderContext::Plain) {
        RenderedElement::Button { style, on_press, .. } => {
            assert_eq!(style, ButtonStyle::Default);
            match on_press {
                ComponentWidgetEvent::TagClick { widget } => {
                    assert_eq!(widget.widget_id, 9);
                    assert_eq!(widget.widget_type, "tag");
                    let event: DbusEventViewEvent = ComponentWidgetEvent::TagClick { widget }.handle();
                    assert_eq!(event.event_name, "onClick");
                    assert_eq!(event.widget.widget_id, 9);
                    assert_eq!(event.widget.widget_type, "tag");
                }
                _ => panic!("expected a tag click"),
            }
        }
        _ => panic!("expected a button"),
    }
}

#[test]
fn placeholders_render_as_their_names() {
    let mut store = WidgetStore::new();
    let cases = [
        ("separator", "Separator"),
        ("image", "Image"),
        ("horizontal_break", "HorizontalBreak"),
        ("code_block", "CodeBlock"),
        ("code", "Code"),
    ];
    for (name, shown) in cases {
        let x = w(&mut store, 1, name);
        assert_eq!(text_of(&x.render_widget(&store, ComponentRenderContext::H1)), (shown.to_string(), None));
    }
    // a code block shows its name, whatever it holds
    let code = w(&mut store, 1, "code_block");
    let body = part(&mut store, 2, "fn main() {}");
    let code = with_children(&mut store, code, vec![body]);
    assert_eq!(text_of(&code.render_widget(&store, ComponentRenderContext::Plain)), ("CodeBlock".to_string(), None));
}

#[test]
fn metadata_and_content_are_columns() {
    let mut store = WidgetStore::new();
    let metadata = w(&mut store, 1, "metadata");
    let m = part(&mut store, 2, "m");
    let metadata = with_children(&mut store, metadata, vec![m]);
    assert!(matches!(metadata.render_widget(&store, ComponentRenderContext::Plain), RenderedElement::Column(v) if v.len() == 1));
    let content = w(&mut store, 3, "content");
    let c = part(&mut store, 4, "c");
    let d = part(&mut store, 5, "d");
    let content = with_children(&mut store, content, vec![c, d]);
    assert!(matches!(content.render_widget(&store, ComponentRenderContext::Plain), RenderedElement::Column(v) if v.len() == 2));
    let item = w(&mut store, 6, "metadata_item");
    let i = part(&mut store, 7, "i");
    let item = with_children(&mut store, item, vec![i]);
    assert!(matches!(item.render_widget(&store, ComponentRenderContext::Plain), RenderedElement::Row(v) if v.len() == 1));
}

#[test]
fn detail_shows_content_then_metadata() {
    let mut store = WidgetStore::new();
    let metadata = w(&mut store, 2, "metadata");
    let meta = part(&mut store, 3, "meta");
    let metadata = with_children(&mut store, metadata, vec![meta]);
    let content = w(&mut store, 4, "content");
    let body = part(&mut store, 5, "body");
    let more = part(&mut store, 6, "more");
    let content = with_children(&mut store, content, vec![body, more]);
    let detail = w(&mut store, 1, "detail");
    let detail = with_children(&mut store, detail, vec![metadata, content]);
    assert!(detail.is_renderable(&store));
    match detail.render_widget(&store, ComponentRenderContext::Plain) {
        RenderedElement::Row(v) => {
            assert_eq!(v.len(), 2);
            assert!(matches!(&v[0], RenderedElement::Column(c) if c.len() == 2));
            assert!(matches!(&v[1], RenderedElement::Column(c) if c.len() == 1));
        }
        _ => panic!("expected a row"),
    }
}

#[test]
fn root_renders_its_children_in_a_row() {
    let mut store = WidgetStore::new();
    let root = ComponentWidgetWrapper::root(&mut store, 1);
    let a = part(&mut store, 2, "a");
    let sep = w(&mut store, 3, "separator");
    let root = with_children(&mut store, root, vec![a, sep]);
    match root.render_widget(&store, ComponentRenderContext::Plain) {
        RenderedElement::Row(v) => {
            assert_eq!(text_of(&v[0]), ("a".to_string(), None));
            assert_eq!(text_of(&v[1]), ("Separator".to_string(), None));
        }
        _ => panic!("expected a row"),
    }
    let empty = ComponentWidgetWrapper::root(&mut store, 9);
    assert!(matches!(empty.render_widget(&store, ComponentRenderContext::Plain), RenderedElement::Row(v) if v.is_empty()));
}

#[test]
fn rendering_twice_gives_the_same() {
    let mut store = WidgetStore::new();
    let root = ComponentWidgetWrapper::root(&mut store, 1);
    let h1 = w(&mut store, 2, "h1");
    let t = part(&mut store, 3, "t");
    let h1 = with_children(&mut store, h1, vec![t]);
    let root = with_children(&mut store, root, vec![h1]);
    let first = root.render_widget(&store, ComponentRenderContext::Plain);
    let second = root.clone().render_widget(&store, ComponentRenderContext::Plain);
    match (first, second) {
        (RenderedElement::Row(a), RenderedElement::Row(b)) => match (&a[0], &b[0]) {
            (RenderedElement::Row(x), RenderedElement::Row(y)) => assert_eq!(text_of(&x[0]), text_of(&y[0])),
            _ => panic!("expected rows"),
        },
        _ => panic!("expected rows"),
    }
}

#[test]
fn shared_child_shows_in_every_parent() {
    let mut store = WidgetStore::new();
    let shared = part(&mut store, 5, "shared");
    let a = ComponentWidgetWrapper::root(&mut store, 1);
    let b = w(&mut store, 2, "text");
    a.append_child(&mut store, shared).unwrap();
    b.append_child(&mut store, shared).unwrap();
    for parent in [a, b] {
        match parent.render_widget(&store, ComponentRenderContext::Plain) {
            RenderedElement::Row(v) => assert_eq!(text_of(&v[0]), ("shared".to_string(), None)),
            _ => panic!("expected a row"),
        }
    }
}

#[test]
fn child_by_type_needs_exactly_one() {
    let mut store = WidgetStore::new();
    let a = part(&mut store, 1, "a");
    let none = vec![a];
    assert!(matches!(
        render_child_by_type(&none, &store, ComponentWidgetType::Metadata, ComponentRenderContext::Plain),
        Err(RenderError::NoChildMatching)
    ));
    let m1 = w(&mut store, 1, "metadata");
    let x = part(&mut store, 2, "x");
    let m2 = w(&mut store, 3, "metadata");
    let two = vec![m1, x, m2];
    assert!(matches!(
        render_child_by_type(&two, &store, ComponentWidgetType::Metadata, ComponentRenderContext::Plain),
        Err(RenderError::MoreThanOneChildMatching)
    ));
    let sep = w(&mut store, 2, "separator");
    let one = vec![x, sep];
    assert!(matches!(
        render_child_by_type(&one, &store, ComponentWidgetType::Separator, ComponentRenderContext::Plain),
        Ok(RenderedElement::Text { .. })
    ));
}

#[test]
fn children_by_type_keeps_only_that_kind() {
    let mut store = WidgetStore::new();
    let a = part(&mut store, 1, "a");
    let sep = w(&mut store, 2, "separator");
    let b = part(&mut store, 3, "b");
    let children = vec![a, sep, b];
    let rendered = render_children_by_type(&children, &store, ComponentWidgetType::TextPart, ComponentRenderContext::H6);
    assert_eq!(rendered.len(), 2);
    assert_eq!(text_of(&rendered[0]), ("a".to_string(), Some(16)));
    assert_eq!(text_of(&rendered[1]), ("b".to_string(), Some(16)));
    let all = render_children(&children, &store, ComponentRenderContext::Plain);
    assert_eq!(all.len(), 3);
    assert_eq!(text_of(&all[1]), ("Separator".to_string(), None));
}

#[test]
fn trees_without_detail_are_renderable() {
    let mut store = WidgetStore::new();
    let h1 = w(&mut store, 2, "h1");
    let t = part(&mut store, 3, "t");
    let h1 = with_children(&mut store, h1, vec![t]);
    let item = w(&mut store, 5, "metadata_item");
    let i = part(&mut store, 6, "i");
    let item = with_children(&mut store, item, vec![i]);
    let metadata = w(&mut store, 4, "metadata");
    let metadata = with_children(&mut store, metadata, vec![item]);
    let image = w(&mut store, 7, "image");
    let root = ComponentWidgetWrapper::root(&mut store, 1);
    let root = with_children(&mut store, root, vec![h1, metadata, image]);
    assert!(root.is_renderable(&store));
}

#[test]
fn malformed_detail_or_cycle_is_not_renderable() {
    let mut store = WidgetStore::new();
    let only_content = w(&mut store, 1, "detail");
    let c = w(&mut store, 2, "content");
    let only_content = with_children(&mut store, only_content, vec![c]);
    assert!(!only_content.is_renderable(&store));
    let two_metadata = w(&mut store, 1, "detail");
    let c2 = w(&mut store, 2, "content");
    let m1 = w(&mut store, 3, "metadata");
    let m2 = w(&mut store, 4, "metadata");
    let two_metadata = with_children(&mut store, two_metadata, vec![c2, m1, m2]);
    assert!(!two_metadata.is_renderable(&store));
    let nested = ComponentWidgetWrapper::root(&mut store, 9);
    let nested = with_children(&mut store, nested, vec![only_content]);
    assert!(!nested.is_renderable(&store));
    // a code block does not show its children, so what it holds does not matter
    let code = w(&mut store, 5, "code_block");
    let bad = w(&mut store, 6, "detail");
    let code = with_children(&mut store, code, vec![bad]);
    assert!(code.is_renderable(&store));
    // a widget that holds itself cannot be rendered
    let looped = w(&mut store, 7, "text");
    looped.append_child(&mut store, looped).unwrap();
    assert!(!looped.is_renderable(&store));
}

#[test]
fn acyclic_tree_with_well_formed_details_is_renderable() {
    let mut store = WidgetStore::new();
    let shared = part(&mut store, 2, "shared");
    let item = w(&mut store, 3, "metadata_item");
    let item = with_children(&mut store, item, vec![shared]);
    let metadata = w(&mut store, 4, "metadata");
    let metadata = with_children(&mut store, metadata, vec![item]);
    let h2 = w(&mut store, 5, "h2");
    let h2 = with_children(&mut store, h2, vec![shared]);
    let content = w(&mut store, 6, "content");
    let content = with_children(&mut store, content, vec![h2]);
    let detail = w(&mut store, 7, "detail");
    let detail = with_children(&mut store, detail, vec![metadata, content]);
    let root = ComponentWidgetWrapper::root(&mut store, 1);
    let root = with_children(&mut store, root, vec![detail]);
    assert!(root.is_renderable(&store));
    match root.render_widget(&store, ComponentRenderContext::Plain) {
        RenderedElement::Row(children) => {
            assert_eq!(children.len(), 1);
            match &children[0] {
                RenderedElement::Row(parts) => {
                    assert_eq!(parts.len(), 2);
                    assert!(matches!(&parts[0], RenderedElement::Column(c) if c.len() == 1));
                    assert!(matches!(&parts[1], RenderedElement::Column(m) if m.len() == 1));
                }
                _ => panic!("a detail renders to a row"),
            }
        }
        _ => panic!("the root renders to a row"),
    }
}
