use vstd::prelude::*;

use crate::widget::{
    ComponentWidget, ComponentWidgetType, ComponentWidgetWrapper, NativeUiWidget,
    NativeUiWidgetId, NodeModel, WidgetStore, is_valid_handle, node_model, spec_internal_name,
    store_wf,
};

verus! {

/// The heading level that a widget is rendered under.
#[derive(PartialEq, Eq, Structural, Clone, Copy, Debug)]
pub enum ComponentRenderContext {
    Plain,
    H1,
    H2,
    H3,
    H4,
    H5,
    H6,
}

/// The look of a button.
#[derive(PartialEq, Eq, Structural, Clone, Copy, Debug)]
pub enum ButtonStyle {
    Default,
    Link,
}

/// What a press on a rendered widget reports.
#[derive(Debug)]
pub enum ComponentWidgetEvent {
    LinkClick { href: String },
    TagClick { widget: NativeUiWidget },
}

impl Clone for ComponentWidgetEvent {
    fn clone(&self) -> (r: Self)
        ensures
            r == *self,
    {
        match self {
            ComponentWidgetEvent::LinkClick { href } => ComponentWidgetEvent::LinkClick {
                href: href.clone(),
            },
            ComponentWidgetEvent::TagClick { widget } => ComponentWidgetEvent::TagClick {
                widget: widget.clone(),
            },
        }
    }
}

/// A rendered element, to be drawn by the user interface toolkit.
///
/// A text with a size is drawn in the bold font at that size.
pub enum RenderedElement {
    Text { text: String, size: Option<u16> },
    Row(Vec<RenderedElement>),
    Column(Vec<RenderedElement>),
    Button { content: Box<RenderedElement>, style: ButtonStyle, on_press: ComponentWidgetEvent },
}

/// Why one child could not be picked by its kind.
#[derive(PartialEq, Eq, Structural, Clone, Copy, Debug)]
pub enum RenderError {
    NoChildMatching,
    MoreThanOneChildMatching,
}

/// The model of what a press reports.
pub enum EventModel {
    LinkClick { href: Seq<char> },
    TagClick { widget_id: NativeUiWidgetId, widget_type: Seq<char> },
}

/// The model of a rendered element.
pub enum RenderModel {
    Text { text: Seq<char>, size: Option<u16> },
    Row(Seq<RenderModel>),
    Column(Seq<RenderModel>),
    Button { content: Box<RenderModel>, style: ButtonStyle, on_press: EventModel },
}

pub open spec fn event_model(e: ComponentWidgetEvent) -> EventModel {
    match e {
        ComponentWidgetEvent::LinkClick { href } => EventModel::LinkClick { href: href@ },
        ComponentWidgetEvent::TagClick { widget } => EventModel::TagClick {
            widget_id: widget.widget_id,
            widget_type: widget.widget_type@,
        },
    }
}

pub open spec fn element_model(r: RenderedElement) -> RenderModel
    decreases r, 0int,
{
    match r {
        RenderedElement::Text { text, size } => RenderModel::Text { text: text@, size },
        RenderedElement::Row(v) => RenderModel::Row(element_models(v@)),
        RenderedElement::Column(v) => RenderModel::Column(element_models(v@)),
        RenderedElement::Button { content, style, on_press } => RenderModel::Button {
            content: Box::new(element_model(*content)),
            style,
            on_press: event_model(on_press),
        },
    }
}

pub open spec fn element_models(rs: Seq<RenderedElement>) -> Seq<RenderModel>
    decreases rs, 1int,
{
    if rs.len() == 0 {
        Seq::empty()
    } else {
        element_models(rs.drop_last()).push(element_model(rs.last()))
    }
}

impl View for RenderedElement {
    type V = RenderModel;

    open spec fn view(&self) -> RenderModel {
        element_model(*self)
    }
}

pub proof fn lemma_element_models(rs: Seq<RenderedElement>)
    ensures
        element_models(rs).len() == rs.len(),
        forall|i: int| 0 <= i < rs.len() ==> #[trigger] element_models(rs)[i] == rs[i]@,
    decreases rs.len(),
{
    if rs.len() > 0 {
        lemma_element_models(rs.drop_last());
        assert forall|i: int| 0 <= i < rs.len() implies #[trigger] element_models(rs)[i]
            == rs[i]@ by {
            if i < rs.len() - 1 {
                assert(rs.drop_last()[i] == rs[i]);
            }
        }
    }
}

pub proof fn lemma_element_models_push(rs: Seq<RenderedElement>, r: RenderedElement)
    ensures
        element_models(rs.push(r)) == element_models(rs).push(r@),
{
    assert(rs.push(r).drop_last() =~= rs);
}

/// The text size of a text part under each heading level.
pub open spec fn spec_text_size(context: ComponentRenderContext) -> Option<u16> {
    match context {
        ComponentRenderContext::Plain => None,
        ComponentRenderContext::H1 => Some(34u16),
        ComponentRenderContext::H2 => Some(30u16),
        ComponentRenderContext::H3 => Some(24u16),
        ComponentRenderContext::H4 => Some(20u16),
        ComponentRenderContext::H5 => Some(18u16),
        ComponentRenderContext::H6 => Some(16u16),
    }
}

/// The handles of `hs` whose widget in `s` is of kind `kind`, in order.
pub open spec fn filter_kind(
    s: Seq<NodeModel>,
    hs: Seq<ComponentWidgetWrapper>,
    kind: ComponentWidgetType,
) -> Seq<ComponentWidgetWrapper>
    decreases hs.len(),
{
    if hs.len() == 0 {
        Seq::empty()
    } else if s[hs.last().key as int].kind == kind {
        filter_kind(s, hs.drop_last(), kind).push(hs.last())
    } else {
        filter_kind(s, hs.drop_last(), kind)
    }
}

pub proof fn lemma_filter_kind_take(
    s: Seq<NodeModel>,
    hs: Seq<ComponentWidgetWrapper>,
    kind: ComponentWidgetType,
    i: int,
)
    requires
        0 <= i < hs.len(),
    ensures
        filter_kind(s, hs.take(i + 1), kind) == if s[hs[i].key as int].kind == kind {
            filter_kind(s, hs.take(i), kind).push(hs[i])
        } else {
            filter_kind(s, hs.take(i), kind)
        },
{
    assert(hs.take(i + 1).drop_last() =~= hs.take(i));
}

/// Whether rendering the widget at `key` of `s` is defined within `fuel`
/// levels: the widgets that it shows go at most `fuel` levels deep, and every
/// detail among them has exactly one metadata child and one content child.
///
/// With `s.len()` levels this holds of every widget of a well-formed store
/// below which no chain of children meets a widget twice, where every detail
/// of the store is as above (`law_acyclic_widget_is_renderable`).
pub open spec fn renderable(s: Seq<NodeModel>, key: int, fuel: nat) -> bool
    decreases fuel, 0int,
{
    if fuel == 0 || !(0 <= key < s.len()) {
        false
    } else {
        let children = s[key].children;
        match s[key].kind {
            ComponentWidgetType::Detail => {
                let metadata = filter_kind(s, children, ComponentWidgetType::Metadata);
                let content = filter_kind(s, children, ComponentWidgetType::Content);
                &&& metadata.len() == 1
                &&& content.len() == 1
                &&& renderable(s, metadata[0].key as int, (fuel - 1) as nat)
                &&& renderable(s, content[0].key as int, (fuel - 1) as nat)
            },
            ComponentWidgetType::TextPart | ComponentWidgetType::Separator
            | ComponentWidgetType::Image | ComponentWidgetType::HorizontalBreak
            | ComponentWidgetType::CodeBlock | ComponentWidgetType::Code => true,
            _ => renderable_all(s, children, (fuel - 1) as nat),
        }
    }
}

pub open spec fn renderable_all(s: Seq<NodeModel>, hs: Seq<ComponentWidgetWrapper>, fuel: nat) -> bool
    decreases fuel, hs.len(),
{
    if hs.len() == 0 {
        true
    } else {
        renderable_all(s, hs.drop_last(), fuel) && renderable(s, hs.last().key as int, fuel)
    }
}

pub proof fn lemma_renderable_all(s: Seq<NodeModel>, hs: Seq<ComponentWidgetWrapper>, fuel: nat)
    ensures
        renderable_all(s, hs, fuel) <==> forall|i: int|
            0 <= i < hs.len() ==> renderable(s, #[trigger] hs[i].key as int, fuel),
    decreases hs.len(),
{
    if hs.len() > 0 {
        lemma_renderable_all(s, hs.drop_last(), fuel);
        if forall|i: int| 0 <= i < hs.len() ==> renderable(s, #[trigger] hs[i].key as int, fuel) {
            assert(renderable(s, hs[hs.len() - 1].key as int, fuel));
            assert forall|i: int| 0 <= i < hs.drop_last().len() implies renderable(
                s,
                #[trigger] hs.drop_last()[i].key as int,
                fuel,
            ) by {
                assert(renderable(s, hs[i].key as int, fuel));
            }
        }
        if renderable_all(s, hs, fuel) {
            assert forall|i: int| 0 <= i < hs.len() implies renderable(
                s,
                #[trigger] hs[i].key as int,
                fuel,
            ) by {
                if i < hs.len() - 1 {
                    assert(renderable(s, hs.drop_last()[i].key as int, fuel));
                }
            }
        }
    }
}

pub open spec fn placeholder(name: Seq<char>) -> RenderModel {
    RenderModel::Text { text: name, size: None }
}

/// What the widget at `key` of `s` renders to under `context`, when rendering
/// it is defined within `fuel` levels.
pub open spec fn spec_render(
    s: Seq<NodeModel>,
    key: int,
    context: ComponentRenderContext,
    fuel: nat,
) -> RenderModel
    decreases fuel, 0int,
{
    if fuel == 0 || !(0 <= key < s.len()) {
        placeholder(Seq::empty())
    } else {
        let m = s[key];
        let f = (fuel - 1) as nat;
        let plain = ComponentRenderContext::Plain;
        match m.kind {
            ComponentWidgetType::TextPart => RenderModel::Text {
                text: m.text,
                size: spec_text_size(context),
            },
            ComponentWidgetType::Text => RenderModel::Row(spec_render_all(s, m.children, context, f)),
            ComponentWidgetType::Link => RenderModel::Button {
                content: Box::new(RenderModel::Row(spec_render_all(s, m.children, plain, f))),
                style: ButtonStyle::Link,
                on_press: EventModel::LinkClick { href: m.text },
            },
            ComponentWidgetType::Tag => RenderModel::Button {
                content: Box::new(RenderModel::Row(spec_render_all(s, m.children, plain, f))),
                style: ButtonStyle::Default,
                on_press: EventModel::TagClick {
                    widget_id: m.id,
                    widget_type: spec_internal_name(ComponentWidgetType::Tag),
                },
            },
            ComponentWidgetType::MetadataItem => RenderModel::Row(
                spec_render_all(s, m.children, plain, f),
            ),
            ComponentWidgetType::Separator => placeholder("Separator"@),
            ComponentWidgetType::Metadata => RenderModel::Column(
                spec_render_all(s, m.children, plain, f),
            ),
            ComponentWidgetType::Image => placeholder("Image"@),
            ComponentWidgetType::H1 => RenderModel::Row(
                spec_render_all(s, m.children, ComponentRenderContext::H1, f),
            ),
            ComponentWidgetType::H2 => RenderModel::Row(
                spec_render_all(s, m.children, ComponentRenderContext::H2, f),
            ),
            ComponentWidgetType::H3 => RenderModel::Row(
                spec_render_all(s, m.children, ComponentRenderContext::H3, f),
            ),
            ComponentWidgetType::H4 => RenderModel::Row(
                spec_render_all(s, m.children, ComponentRenderContext::H4, f),
            ),
            ComponentWidgetType::H5 => RenderModel::Row(
                spec_render_all(s, m.children, ComponentRenderContext::H5, f),
            ),
            ComponentWidgetType::H6 => RenderModel::Row(
                spec_render_all(s, m.children, ComponentRenderContext::H6, f),
            ),
            ComponentWidgetType::HorizontalBreak => placeholder("HorizontalBreak"@),
            ComponentWidgetType::CodeBlock => placeholder("CodeBlock"@),
            ComponentWidgetType::Code => placeholder("Code"@),
            ComponentWidgetType::Content => RenderModel::Column(
                spec_render_all(s, m.children, plain, f),
            ),
            ComponentWidgetType::Detail => {
                let metadata = filter_kind(s, m.children, ComponentWidgetType::Metadata);
                let content = filter_kind(s, m.children, ComponentWidgetType::Content);
                RenderModel::Row(
                    seq![
                        spec_render(s, content[0].key as int, plain, f),
                        spec_render(s, metadata[0].key as int, plain, f),
                    ],
                )
            },
            ComponentWidgetType::Root => RenderModel::Row(spec_render_all(s, m.children, plain, f)),
        }
    }
}

/// What the widgets of `hs` render to, one for one.
pub open spec fn spec_render_all(
    s: Seq<NodeModel>,
    hs: Seq<ComponentWidgetWrapper>,
    context: ComponentRenderContext,
    fuel: nat,
) -> Seq<RenderModel>
    decreases fuel, hs.len(),
{
    if hs.len() == 0 {
        Seq::empty()
    } else {
        spec_render_all(s, hs.drop_last(), context, fuel).push(
            spec_render(s, hs.last().key as int, context, fuel),
        )
    }
}

pub proof fn lemma_render_all(
    s: Seq<NodeModel>,
    hs: Seq<ComponentWidgetWrapper>,
    context: ComponentRenderContext,
    fuel: nat,
)
    ensures
        spec_render_all(s, hs, context, fuel).len() == hs.len(),
        forall|i: int|
            0 <= i < hs.len() ==> #[trigger] spec_render_all(s, hs, context, fuel)[i]
                == spec_render(s, hs[i].key as int, context, fuel),
    decreases hs.len(),
{
    if hs.len() > 0 {
        lemma_render_all(s, hs.drop_last(), context, fuel);
        assert forall|i: int| 0 <= i < hs.len() implies #[trigger] spec_render_all(
            s,
            hs,
            context,
            fuel,
        )[i] == spec_render(s, hs[i].key as int, context, fuel) by {
            if i < hs.len() - 1 {
                assert(hs.drop_last()[i] == hs[i]);
            }
        }
    }
}

pub proof fn lemma_render_all_take(
    s: Seq<NodeModel>,
    hs: Seq<ComponentWidgetWrapper>,
    context: ComponentRenderContext,
    fuel: nat,
    i: int,
)
    requires
        0 <= i < hs.len(),
    ensures
        spec_render_all(s, hs.take(i + 1), context, fuel) == spec_render_all(
            s,
            hs.take(i),
            context,
            fuel,
        ).push(spec_render(s, hs[i].key as int, context, fuel)),
{
    assert(hs.take(i + 1).drop_last() =~= hs.take(i));
}

/// Whether every handle of `hs` stands for a widget of `s`.
pub open spec fn all_valid(s: Seq<NodeModel>, hs: Seq<ComponentWidgetWrapper>) -> bool {
    forall|i: int| 0 <= i < hs.len() ==> is_valid_handle(s, #[trigger] hs[i])
}

impl ComponentRenderContext {
    /// The text size of a text part under this heading level.
    pub fn text_size(&self) -> (r: Option<u16>)
        ensures
            r == spec_text_size(*self),
    {
        match self {
            ComponentRenderContext::Plain => None,
            ComponentRenderContext::H1 => Some(34),
            ComponentRenderContext::H2 => Some(30),
            ComponentRenderContext::H3 => Some(24),
            ComponentRenderContext::H4 => Some(20),
            ComponentRenderContext::H5 => Some(18),
            ComponentRenderContext::H6 => Some(16),
        }
    }
}

/// How many handles of `content` stand for widgets of kind `kind`, and where
/// the first of them stands.
pub fn count_of_kind(
    content: &Vec<ComponentWidgetWrapper>,
    store: &WidgetStore,
    kind: ComponentWidgetType,
) -> (r: (usize, usize))
    requires
        all_valid(store@, content@),
    ensures
        r.0 == filter_kind(store@, content@, kind).len(),
        r.0 > 0 ==> r.1 < content.len() && content@[r.1 as int] == filter_kind(
            store@,
            content@,
            kind,
        )[0],
{
    let ghost s = store@;
    let ghost hs = content@;
    proof {
        assert(hs.take(0) =~= Seq::<ComponentWidgetWrapper>::empty());
    }
    let mut count: usize = 0;
    let mut first: usize = 0;
    let mut i: usize = 0;
    while i < content.len()
        invariant
            i <= content.len(),
            s == store@,
            hs == content@,
            all_valid(s, hs),
            count == filter_kind(s, hs.take(i as int), kind).len(),
            count <= i,
            count > 0 ==> first < i && hs[first as int] == filter_kind(s, hs.take(i as int), kind)[0],
        decreases content.len() - i,
    {
        proof {
            lemma_filter_kind_take(s, hs, kind, i as int);
            assert(is_valid_handle(s, hs[i as int]));
        }
        if content[i].widget_type(store) == kind {
            if count == 0 {
                first = i;
            }
            count = count + 1;
        }
        i = i + 1;
    }
    proof {
        assert(hs.take(content.len() as int) =~= hs);
    }
    (count, first)
}

impl ComponentWidgetWrapper {
    /// Renders the widget and the descendants that it shows.
    pub fn render_widget(&self, store: &WidgetStore, context: ComponentRenderContext) -> (r:
        RenderedElement)
        requires
            store_wf(store@),
            is_valid_handle(store@, *self),
            renderable(store@, self.key as int, store@.len()),
        ensures
            r@ == spec_render(store@, self.key as int, context, store@.len()),
    {
        self.render_at(store, context, Ghost(store@.len()))
    }

    fn render_at(&self, store: &WidgetStore, context: ComponentRenderContext, Ghost(fuel): Ghost<
        nat,
    >) -> (r: RenderedElement)
        requires
            store_wf(store@),
            is_valid_handle(store@, *self),
            renderable(store@, self.key as int, fuel),
        ensures
            r@ == spec_render(store@, self.key as int, context, fuel),
        decreases fuel, 0int,
    {
        let node = store.node(*self);
        let ghost f = (fuel - 1) as nat;
        proof {
            lemma_children_valid(store@, self.key as int);
            lemma_renderable_all(store@, store@[self.key as int].children, (fuel - 1) as nat);
        }
        match &node.widget {
            ComponentWidget::TextPart(text_content) => RenderedElement::Text {
                text: text_content.clone(),
                size: context.text_size(),
            },
            ComponentWidget::Text { children } => RenderedElement::Row(
                render_all_at(children, store, context, Ghost(f)),
            ),
            ComponentWidget::Link { children, href } => {
                let v = render_all_at(children, store, ComponentRenderContext::Plain, Ghost(f));
                let content = RenderedElement::Row(v);
                assert(content@ == RenderModel::Row(element_models(v@)));
                RenderedElement::Button {
                    content: Box::new(content),
                    style: ButtonStyle::Link,
                    on_press: ComponentWidgetEvent::LinkClick { href: href.clone() },
                }
            },
            ComponentWidget::Tag { children, .. } => {
                let v = render_all_at(children, store, ComponentRenderContext::Plain, Ghost(f));
                let content = RenderedElement::Row(v);
                assert(content@ == RenderModel::Row(element_models(v@)));
                RenderedElement::Button {
                    content: Box::new(content),
                    style: ButtonStyle::Default,
                    on_press: ComponentWidgetEvent::TagClick { widget: self.as_native_widget(store) },
                }
            },
            ComponentWidget::MetadataItem { children } => RenderedElement::Row(
                render_all_at(children, store, ComponentRenderContext::Plain, Ghost(f)),
            ),
            ComponentWidget::Separator => RenderedElement::Text {
                text: "Separator".to_owned(),
                size: None,
            },
            ComponentWidget::Metadata { children } => RenderedElement::Column(
                render_all_at(children, store, ComponentRenderContext::Plain, Ghost(f)),
            ),
            ComponentWidget::Image => RenderedElement::Text { text: "Image".to_owned(), size: None },
            ComponentWidget::H1 { children } => RenderedElement::Row(
                render_all_at(children, store, ComponentRenderContext::H1, Ghost(f)),
            ),
            ComponentWidget::H2 { children } => RenderedElement::Row(
                render_all_at(children, store, ComponentRenderContext::H2, Ghost(f)),
            ),
            ComponentWidget::H3 { children } => RenderedElement::Row(
                render_all_at(children, store, ComponentRenderContext::H3, Ghost(f)),
            ),
            ComponentWidget::H4 { children } => RenderedElement::Row(
                render_all_at(children, store, ComponentRenderContext::H4, Ghost(f)),
            ),
            ComponentWidget::H5 { children } => RenderedElement::Row(
                render_all_at(children, store, ComponentRenderContext::H5, Ghost(f)),
            ),
            ComponentWidget::H6 { children } => RenderedElement::Row(
                render_all_at(children, store, ComponentRenderContext::H6, Ghost(f)),
            ),
            ComponentWidget::HorizontalBreak => RenderedElement::Text {
                text: "HorizontalBreak".to_owned(),
                size: None,
            },
            ComponentWidget::CodeBlock { .. } => RenderedElement::Text {
                text: "CodeBlock".to_owned(),
                size: None,
            },
            ComponentWidget::Code { .. } => RenderedElement::Text { text: "Code".to_owned(), size: None },
            ComponentWidget::Content { children } => RenderedElement::Column(
                render_all_at(children, store, ComponentRenderContext::Plain, Ghost(f)),
            ),
            ComponentWidget::Detail { children } => {
                let metadata_element = render_child_by_type_at(
                    children,
                    store,
                    ComponentWidgetType::Metadata,
                    ComponentRenderContext::Plain,
                    Ghost(f),
                );
                let content_element = render_child_by_type_at(
                    children,
                    store,
                    ComponentWidgetType::Content,
                    ComponentRenderContext::Plain,
                    Ghost(f),
                );
                match (content_element, metadata_element) {
                    (Ok(content_element), Ok(metadata_element)) => {
                        let ghost c = content_element@;
                        let ghost md = metadata_element@;
                        let v = vec![content_element, metadata_element];
                        proof {
                            lemma_element_models(v@);
                            assert(element_models(v@) =~= seq![c, md]);
                        }
                        RenderedElement::Row(v)
                    },
                    _ => {
                        proof {
                            assert(false);
                        }
                        RenderedElement::Row(Vec::new())
                    },
                }
            },
            ComponentWidget::Root { children } => RenderedElement::Row(
                render_all_at(children, store, ComponentRenderContext::Plain, Ghost(f)),
            ),
        }
    }

    /// Whether rendering the widget is defined.
    pub fn is_renderable(&self, store: &WidgetStore) -> (r: bool)
        requires
            store_wf(store@),
        ensures
            r == renderable(store@, self.key as int, store@.len()),
    {
        self.renderable_at(store, store.len())
    }

    fn renderable_at(&self, store: &WidgetStore, fuel: usize) -> (r: bool)
        requires
            store_wf(store@),
        ensures
            r == renderable(store@, self.key as int, fuel as nat),
        decreases fuel, 0int,
    {
        if fuel == 0 || self.key >= store.len() {
            return false;
        }
        let node = store.node_at(self.key);
        proof {
            lemma_children_valid(store@, self.key as int);
        }
        match &node.widget {
            ComponentWidget::Detail { children } => {
                let (metadata_count, metadata_index) = count_of_kind(
                    children,
                    store,
                    ComponentWidgetType::Metadata,
                );
                let (content_count, content_index) = count_of_kind(
                    children,
                    store,
                    ComponentWidgetType::Content,
                );
                if metadata_count != 1 || content_count != 1 {
                    return false;
                }
                children[metadata_index].renderable_at(store, fuel - 1)
                    && children[content_index].renderable_at(store, fuel - 1)
            },
            ComponentWidget::TextPart(_)
            | ComponentWidget::Separator
            | ComponentWidget::Image
            | ComponentWidget::HorizontalBreak
            | ComponentWidget::CodeBlock { .. }
            | ComponentWidget::Code { .. } => true,
            ComponentWidget::Text { children } => all_renderable_at(children, store, fuel - 1),
            ComponentWidget::MetadataItem { children } => all_renderable_at(children, store, fuel - 1),
            ComponentWidget::Metadata { children } => all_renderable_at(children, store, fuel - 1),
            ComponentWidget::H1 { children } => all_renderable_at(children, store, fuel - 1),
            ComponentWidget::H2 { children } => all_renderable_at(children, store, fuel - 1),
            ComponentWidget::H3 { children } => all_renderable_at(children, store, fuel - 1),
            ComponentWidget::H4 { children } => all_renderable_at(children, store, fuel - 1),
            ComponentWidget::H5 { children } => all_renderable_at(children, store, fuel - 1),
            ComponentWidget::H6 { children } => all_renderable_at(children, store, fuel - 1),
            ComponentWidget::Content { children } => all_renderable_at(children, store, fuel - 1),
            ComponentWidget::Root { children } => all_renderable_at(children, store, fuel - 1),
            ComponentWidget::Link { children, .. } => all_renderable_at(children, store, fuel - 1),
            ComponentWidget::Tag { children, .. } => all_renderable_at(children, store, fuel - 1),
        }
    }
}

/// The children of a widget of a well-formed store stand for widgets of it.
pub proof fn lemma_children_valid(s: Seq<NodeModel>, key: int)
    requires
        store_wf(s),
        0 <= key < s.len(),
    ensures
        all_valid(s, s[key].children),
{
    assert forall|i: int| 0 <= i < s[key].children.len() implies is_valid_handle(
        s,
        #[trigger] s[key].children[i],
    ) by {
        assert(is_valid_handle(s, s[key].children[i]));
    }
}

fn all_renderable_at(content: &Vec<ComponentWidgetWrapper>, store: &WidgetStore, fuel: usize) -> (r:
    bool)
    requires
        store_wf(store@),
    ensures
        r == renderable_all(store@, content@, fuel as nat),
    decreases fuel, 1int,
{
    let ghost s = store@;
    let ghost hs = content@;
    proof {
        lemma_renderable_all(s, hs, fuel as nat);
    }
    let mut i: usize = 0;
    while i < content.len()
        invariant
            i <= content.len(),
            s == store@,
            hs == content@,
            store_wf(s),
            forall|j: int| 0 <= j < i ==> renderable(s, #[trigger] hs[j].key as int, fuel as nat),
            renderable_all(s, hs, fuel as nat) <==> forall|j: int|
                0 <= j < hs.len() ==> renderable(s, #[trigger] hs[j].key as int, fuel as nat),
        decreases content.len() - i,
    {
        if !content[i].renderable_at(store, fuel) {
            assert(!renderable(s, hs[i as int].key as int, fuel as nat));
            return false;
        }
        i = i + 1;
    }
    true
}

fn render_all_at(
    content: &Vec<ComponentWidgetWrapper>,
    store: &WidgetStore,
    context: ComponentRenderContext,
    Ghost(fuel): Ghost<nat>,
) -> (r: Vec<RenderedElement>)
    requires
        store_wf(store@),
        all_valid(store@, content@),
        renderable_all(store@, content@, fuel),
    ensures
        element_models(r@) == spec_render_all(store@, content@, context, fuel),
    decreases fuel, 1int,
{
    let ghost s = store@;
    let ghost hs = content@;
    proof {
        lemma_renderable_all(s, hs, fuel);
        assert(hs.take(0) =~= Seq::<ComponentWidgetWrapper>::empty());
    }
    let mut r: Vec<RenderedElement> = Vec::new();
    let mut i: usize = 0;
    while i < content.len()
        invariant
            i <= content.len(),
            s == store@,
            hs == content@,
            store_wf(s),
            all_valid(s, hs),
            forall|j: int| 0 <= j < hs.len() ==> renderable(s, #[trigger] hs[j].key as int, fuel),
            element_models(r@) == spec_render_all(s, hs.take(i as int), context, fuel),
        decreases content.len() - i,
    {
        proof {
            lemma_render_all_take(s, hs, context, fuel, i as int);
            assert(renderable(s, hs[i as int].key as int, fuel));
            assert(is_valid_handle(s, hs[i as int]));
        }
        let e = content[i].render_at(store, context, Ghost(fuel));
        proof {
            lemma_element_models_push(r@, e);
        }
        r.push(e);
        i = i + 1;
    }
    proof {
        assert(hs.take(content.len() as int) =~= hs);
    }
    r
}

fn render_child_by_type_at(
    content: &Vec<ComponentWidgetWrapper>,
    store: &WidgetStore,
    kind: ComponentWidgetType,
    context: ComponentRenderContext,
    Ghost(fuel): Ghost<nat>,
) -> (r: Result<RenderedElement, RenderError>)
    requires
        store_wf(store@),
        all_valid(store@, content@),
        filter_kind(store@, content@, kind).len() == 1 ==> renderable(
            store@,
            filter_kind(store@, content@, kind)[0].key as int,
            fuel,
        ),
    ensures
        filter_kind(store@, content@, kind).len() == 0 ==> r == Err::<RenderedElement, RenderError>(
            RenderError::NoChildMatching,
        ),
        filter_kind(store@, content@, kind).len() == 1 ==> (r matches Ok(e) && e@ == spec_render(
            store@,
            filter_kind(store@, content@, kind)[0].key as int,
            context,
            fuel,
        )),
        filter_kind(store@, content@, kind).len() > 1 ==> r == Err::<RenderedElement, RenderError>(
            RenderError::MoreThanOneChildMatching,
        ),
    decreases fuel, 1int,
{
    let (count, first) = count_of_kind(content, store, kind);
    if count == 0 {
        Err(RenderError::NoChildMatching)
    } else if count == 1 {
        Ok(content[first].render_at(store, context, Ghost(fuel)))
    } else {
        Err(RenderError::MoreThanOneChildMatching)
    }
}

/// Renders each widget of `content`, in order.
pub fn render_children(
    content: &Vec<ComponentWidgetWrapper>,
    store: &WidgetStore,
    context: ComponentRenderContext,
) -> (r: Vec<RenderedElement>)
    requires
        store_wf(store@),
        all_valid(store@, content@),
        renderable_all(store@, content@, store@.len()),
    ensures
        element_models(r@) == spec_render_all(store@, content@, context, store@.len()),
{
    render_all_at(content, store, context, Ghost(store@.len()))
}

/// Renders the one widget of `content` of kind `kind`; fails when there is
/// none, or more than one.
pub fn render_child_by_type(
    content: &Vec<ComponentWidgetWrapper>,
    store: &WidgetStore,
    kind: ComponentWidgetType,
    context: ComponentRenderContext,
) -> (r: Result<RenderedElement, RenderError>)
    requires
        store_wf(store@),
        all_valid(store@, content@),
        filter_kind(store@, content@, kind).len() == 1 ==> renderable(
            store@,
            filter_kind(store@, content@, kind)[0].key as int,
            store@.len(),
        ),
    ensures
        filter_kind(store@, content@, kind).len() == 0 ==> r == Err::<RenderedElement, RenderError>(
            RenderError::NoChildMatching,
        ),
        filter_kind(store@, content@, kind).len() == 1 ==> (r matches Ok(e) && e@ == spec_render(
            store@,
            filter_kind(store@, content@, kind)[0].key as int,
            context,
            store@.len(),
        )),
        filter_kind(store@, content@, kind).len() > 1 ==> r == Err::<RenderedElement, RenderError>(
            RenderError::MoreThanOneChildMatching,
        ),
{
    render_child_by_type_at(content, store, kind, context, Ghost(store@.len()))
}

/// Renders the widgets of `content` of kind `kind`, in order.
pub fn render_children_by_type(
    content: &Vec<ComponentWidgetWrapper>,
    store: &WidgetStore,
    kind: ComponentWidgetType,
    context: ComponentRenderContext,
) -> (r: Vec<RenderedElement>)
    requires
        store_wf(store@),
        all_valid(store@, content@),
        forall|j: int|
            0 <= j < content@.len() && store@[content@[j].key as int].kind == kind ==> renderable(
                store@,
                #[trigger] content@[j].key as int,
                store@.len(),
            ),
    ensures
        element_models(r@) == spec_render_all(
            store@,
            filter_kind(store@, content@, kind),
            context,
            store@.len(),
        ),
{
    let ghost s = store@;
    let ghost hs = content@;
    let ghost fuel = s.len();
    proof {
        assert(hs.take(0) =~= Seq::<ComponentWidgetWrapper>::empty());
    }
    let mut r: Vec<RenderedElement> = Vec::new();
    let mut i: usize = 0;
    while i < content.len()
        invariant
            i <= content.len(),
            s == store@,
            hs == content@,
            fuel == s.len(),
            store_wf(s),
            all_valid(s, hs),
            forall|j: int|
                0 <= j < hs.len() && s[hs[j].key as int].kind == kind ==> renderable(
                    s,
                    #[trigger] hs[j].key as int,
                    fuel,
                ),
            element_models(r@) == spec_render_all(s, filter_kind(s, hs.take(i as int), kind), context, fuel),
        decreases content.len() - i,
    {
        proof {
            lemma_filter_kind_take(s, hs, kind, i as int);
            assert(is_valid_handle(s, hs[i as int]));
        }
        if content[i].widget_type(store) == kind {
            let e = content[i].render_at(store, context, Ghost(fuel));
            proof {
                let f = filter_kind(s, hs.take(i as int), kind);
                assert(f.push(hs[i as int]).drop_last() =~= f);
                lemma_element_models_push(r@, e);
            }
            r.push(e);
        }
        i = i + 1;
    }
    proof {
        assert(hs.take(content.len() as int) =~= hs);
    }
    r
}

} // verus!
