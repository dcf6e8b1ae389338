use vstd::prelude::*;

verus! {

/// Identifier of a widget instance, handed out by the plugin side.
pub type NativeUiWidgetId = u32;

/// The value of one property passed when a widget is created.
///
/// A number is held by its IEEE-754 bit pattern: the widget logic only ever
/// looks at which kind of value a property holds.
#[derive(Debug)]
pub enum NativeUiPropertyValue {
    String(String),
    Number(u64),
    Bool(bool),
    Function,
}

/// The public description of a widget: its id and its type name.
#[derive(Debug)]
pub struct NativeUiWidget {
    pub widget_id: NativeUiWidgetId,
    pub widget_type: String,
}

impl Clone for NativeUiWidget {
    fn clone(&self) -> (r: Self)
        ensures
            r == *self,
    {
        NativeUiWidget { widget_id: self.widget_id, widget_type: self.widget_type.clone() }
    }
}

/// The kind of a component widget, without its contents.
#[derive(PartialEq, Eq, Structural, Clone, Copy, Debug)]
pub enum ComponentWidgetType {
    TextPart,
    Text,
    Link,
    Tag,
    MetadataItem,
    Separator,
    Metadata,
    Image,
    H1,
    H2,
    H3,
    H4,
    H5,
    H6,
    HorizontalBreak,
    CodeBlock,
    Code,
    Content,
    Detail,
    Root,
}

/// Errors of the widget operations.
#[derive(PartialEq, Eq, Structural, Clone, Copy, Debug)]
pub enum WidgetError {
    /// No component has the requested type name.
    UnknownWidgetType,
    /// A required property was not given.
    MissingProperty,
    /// A property was given with a value of the wrong kind.
    InvalidPropertyType,
    /// The widget is of a kind that holds no children.
    CannotHaveChildren,
}

/// A handle on a widget held in a [`WidgetStore`]: `key` is where the widget
/// stands in the store, `id` the id that the plugin gave it. All copies of a
/// handle stand for the same widget, so a change made through one is seen
/// through every other.
#[derive(PartialEq, Eq, Structural, Clone, Copy, Debug)]
pub struct ComponentWidgetWrapper {
    pub id: NativeUiWidgetId,
    pub key: usize,
}

/// The contents of a component widget; children are handles.
#[derive(Debug)]
pub enum ComponentWidget {
    TextPart(String),
    Text { children: Vec<ComponentWidgetWrapper> },
    Link { children: Vec<ComponentWidgetWrapper>, href: String },
    Tag { children: Vec<ComponentWidgetWrapper>, on_click: bool, color: Option<String> },
    MetadataItem { children: Vec<ComponentWidgetWrapper> },
    Separator,
    Metadata { children: Vec<ComponentWidgetWrapper> },
    Image,
    H1 { children: Vec<ComponentWidgetWrapper> },
    H2 { children: Vec<ComponentWidgetWrapper> },
    H3 { children: Vec<ComponentWidgetWrapper> },
    H4 { children: Vec<ComponentWidgetWrapper> },
    H5 { children: Vec<ComponentWidgetWrapper> },
    H6 { children: Vec<ComponentWidgetWrapper> },
    HorizontalBreak,
    CodeBlock { children: Vec<ComponentWidgetWrapper> },
    Code { children: Vec<ComponentWidgetWrapper> },
    Content { children: Vec<ComponentWidgetWrapper> },
    Detail { children: Vec<ComponentWidgetWrapper> },
    Root { children: Vec<ComponentWidgetWrapper> },
}

/// A widget of a store: the id that the plugin gave it and its contents.
#[derive(Debug)]
pub struct WidgetNode {
    pub id: NativeUiWidgetId,
    pub widget: ComponentWidget,
}

/// The widgets that handles stand for. A widget, once added, stays at its
/// place in the store, and keeps its id.
#[derive(Debug)]
pub struct WidgetStore {
    nodes: Vec<WidgetNode>,
}

/// The mathematical model of one widget of a store.
///
/// `text` is the content of a text part or the `href` of a link, and empty
/// for every other kind; `children` is empty for the kinds that hold none.
pub struct NodeModel {
    pub id: NativeUiWidgetId,
    pub kind: ComponentWidgetType,
    pub text: Seq<char>,
    pub on_click: bool,
    pub color: Option<Seq<char>>,
    pub children: Seq<ComponentWidgetWrapper>,
}

/// Whether widgets of this kind hold children.
pub open spec fn kind_has_children(kind: ComponentWidgetType) -> bool {
    !(kind == ComponentWidgetType::TextPart || kind == ComponentWidgetType::Separator
        || kind == ComponentWidgetType::Image || kind == ComponentWidgetType::HorizontalBreak)
}

/// The type name of each kind, as the plugin side writes it.
pub open spec fn spec_internal_name(kind: ComponentWidgetType) -> Seq<char> {
    match kind {
        ComponentWidgetType::TextPart => "text_part"@,
        ComponentWidgetType::Text => "text"@,
        ComponentWidgetType::Link => "link"@,
        ComponentWidgetType::Tag => "tag"@,
        ComponentWidgetType::MetadataItem => "metadata_item"@,
        ComponentWidgetType::Separator => "separator"@,
        ComponentWidgetType::Metadata => "metadata"@,
        ComponentWidgetType::Image => "image"@,
        ComponentWidgetType::H1 => "h1"@,
        ComponentWidgetType::H2 => "h2"@,
        ComponentWidgetType::H3 => "h3"@,
        ComponentWidgetType::H4 => "h4"@,
        ComponentWidgetType::H5 => "h5"@,
        ComponentWidgetType::H6 => "h6"@,
        ComponentWidgetType::HorizontalBreak => "horizontal_break"@,
        ComponentWidgetType::CodeBlock => "code_block"@,
        ComponentWidgetType::Code => "code"@,
        ComponentWidgetType::Content => "content"@,
        ComponentWidgetType::Detail => "detail"@,
        ComponentWidgetType::Root => "root"@,
    }
}

/// Whether `h` stands for a widget of the store `s`.
pub open spec fn is_valid_handle(s: Seq<NodeModel>, h: ComponentWidgetWrapper) -> bool {
    h.key < s.len() && s[h.key as int].id == h.id
}

/// Whether every child of every widget of the store stands for a widget of it.
pub open spec fn store_wf(s: Seq<NodeModel>) -> bool {
    forall|k: int, i: int|
        0 <= k < s.len() && 0 <= i < s[k].children.len() ==> is_valid_handle(
            s,
            #[trigger] s[k].children[i],
        )
}

/// The children of a widget, or the error that asking for them gives.
pub open spec fn spec_get_children(m: NodeModel) -> Result<Seq<ComponentWidgetWrapper>, WidgetError> {
    if kind_has_children(m.kind) {
        Ok(m.children)
    } else {
        Err(WidgetError::CannotHaveChildren)
    }
}

/// A widget with `children` in place of its children, or the error that
/// replacing them gives.
pub open spec fn spec_set_children(m: NodeModel, children: Seq<ComponentWidgetWrapper>) -> Result<
    NodeModel,
    WidgetError,
> {
    if kind_has_children(m.kind) {
        Ok(NodeModel { children, ..m })
    } else {
        Err(WidgetError::CannotHaveChildren)
    }
}

/// A widget with `child` added after its children, or the error that adding
/// it gives.
pub open spec fn spec_append_child(m: NodeModel, child: ComponentWidgetWrapper) -> Result<
    NodeModel,
    WidgetError,
> {
    spec_set_children(m, m.children.push(child))
}

pub open spec fn leaf_model(id: NativeUiWidgetId, kind: ComponentWidgetType) -> NodeModel {
    NodeModel {
        id,
        kind,
        text: Seq::empty(),
        on_click: false,
        color: None,
        children: Seq::empty(),
    }
}

pub open spec fn option_string_view(s: Option<String>) -> Option<Seq<char>> {
    match s {
        Some(s) => Some(s@),
        None => None,
    }
}

/// The model of a widget with the given id and contents.
pub open spec fn widget_model(id: NativeUiWidgetId, w: ComponentWidget) -> NodeModel {
    match w {
        ComponentWidget::TextPart(s) => NodeModel {
            text: s@,
            ..leaf_model(id, ComponentWidgetType::TextPart)
        },
        ComponentWidget::Link { children, href } => NodeModel {
            text: href@,
            children: children@,
            ..leaf_model(id, ComponentWidgetType::Link)
        },
        ComponentWidget::Tag { children, on_click, color } => NodeModel {
            on_click,
            color: option_string_view(color),
            children: children@,
            ..leaf_model(id, ComponentWidgetType::Tag)
        },
        ComponentWidget::Text { children } => NodeModel {
            children: children@,
            ..leaf_model(id, ComponentWidgetType::Text)
        },
        ComponentWidget::MetadataItem { children } => NodeModel {
            children: children@,
            ..leaf_model(id, ComponentWidgetType::MetadataItem)
        },
        ComponentWidget::Metadata { children } => NodeModel {
            children: children@,
            ..leaf_model(id, ComponentWidgetType::Metadata)
        },
        ComponentWidget::H1 { children } => NodeModel {
            children: children@,
            ..leaf_model(id, ComponentWidgetType::H1)
        },
        ComponentWidget::H2 { children } => NodeModel {
            children: children@,
            ..leaf_model(id, ComponentWidgetType::H2)
        },
        ComponentWidget::H3 { children } => NodeModel {
            children: children@,
            ..leaf_model(id, ComponentWidgetType::H3)
        },
        ComponentWidget::H4 { children } => NodeModel {
            children: children@,
            ..leaf_model(id, ComponentWidgetType::H4)
        },
        ComponentWidget::H5 { children } => NodeModel {
            children: children@,
            ..leaf_model(id, ComponentWidgetType::H5)
        },
        ComponentWidget::H6 { children } => NodeModel {
            children: children@,
            ..leaf_model(id, ComponentWidgetType::H6)
        },
        ComponentWidget::CodeBlock { children } => NodeModel {
            children: children@,
            ..leaf_model(id, ComponentWidgetType::CodeBlock)
        },
        ComponentWidget::Code { children } => NodeModel {
            children: children@,
            ..leaf_model(id, ComponentWidgetType::Code)
        },
        ComponentWidget::Content { children } => NodeModel {
            children: children@,
            ..leaf_model(id, ComponentWidgetType::Content)
        },
        ComponentWidget::Detail { children } => NodeModel {
            children: children@,
            ..leaf_model(id, ComponentWidgetType::Detail)
        },
        ComponentWidget::Root { children } => NodeModel {
            children: children@,
            ..leaf_model(id, ComponentWidgetType::Root)
        },
        ComponentWidget::Separator => leaf_model(id, ComponentWidgetType::Separator),
        ComponentWidget::Image => leaf_model(id, ComponentWidgetType::Image),
        ComponentWidget::HorizontalBreak => leaf_model(id, ComponentWidgetType::HorizontalBreak),
    }
}

pub open spec fn node_model(n: WidgetNode) -> NodeModel {
    widget_model(n.id, n.widget)
}

impl View for WidgetStore {
    type V = Seq<NodeModel>;

    closed spec fn view(&self) -> Seq<NodeModel> {
        self.nodes@.map_values(|n: WidgetNode| node_model(n))
    }
}

/// The kind whose type name is `name`, among the kinds that a plugin creates
/// by name: every kind but the text part and the root.
pub open spec fn spec_kind_from_name(name: Seq<char>) -> Option<ComponentWidgetType> {
    if name == "text"@ {
        Some(ComponentWidgetType::Text)
    } else if name == "link"@ {
        Some(ComponentWidgetType::Link)
    } else if name == "tag"@ {
        Some(ComponentWidgetType::Tag)
    } else if name == "metadata_item"@ {
        Some(ComponentWidgetType::MetadataItem)
    } else if name == "separator"@ {
        Some(ComponentWidgetType::Separator)
    } else if name == "metadata"@ {
        Some(ComponentWidgetType::Metadata)
    } else if name == "image"@ {
        Some(ComponentWidgetType::Image)
    } else if name == "h1"@ {
        Some(ComponentWidgetType::H1)
    } else if name == "h2"@ {
        Some(ComponentWidgetType::H2)
    } else if name == "h3"@ {
        Some(ComponentWidgetType::H3)
    } else if name == "h4"@ {
        Some(ComponentWidgetType::H4)
    } else if name == "h5"@ {
        Some(ComponentWidgetType::H5)
    } else if name == "h6"@ {
        Some(ComponentWidgetType::H6)
    } else if name == "horizontal_break"@ {
        Some(ComponentWidgetType::HorizontalBreak)
    } else if name == "code_block"@ {
        Some(ComponentWidgetType::CodeBlock)
    } else if name == "code"@ {
        Some(ComponentWidgetType::Code)
    } else if name == "content"@ {
        Some(ComponentWidgetType::Content)
    } else if name == "detail"@ {
        Some(ComponentWidgetType::Detail)
    } else {
        None
    }
}

/// The kind whose type name is `name`, among the kinds that a plugin creates by name.
pub fn kind_from_name(name: &str) -> (r: Option<ComponentWidgetType>)
    ensures
        r == spec_kind_from_name(name@),
{
    if str_eq(name, "text") {
        Some(ComponentWidgetType::Text)
    } else if str_eq(name, "link") {
        Some(ComponentWidgetType::Link)
    } else if str_eq(name, "tag") {
        Some(ComponentWidgetType::Tag)
    } else if str_eq(name, "metadata_item") {
        Some(ComponentWidgetType::MetadataItem)
    } else if str_eq(name, "separator") {
        Some(ComponentWidgetType::Separator)
    } else if str_eq(name, "metadata") {
        Some(ComponentWidgetType::Metadata)
    } else if str_eq(name, "image") {
        Some(ComponentWidgetType::Image)
    } else if str_eq(name, "h1") {
        Some(ComponentWidgetType::H1)
    } else if str_eq(name, "h2") {
        Some(ComponentWidgetType::H2)
    } else if str_eq(name, "h3") {
        Some(ComponentWidgetType::H3)
    } else if str_eq(name, "h4") {
        Some(ComponentWidgetType::H4)
    } else if str_eq(name, "h5") {
        Some(ComponentWidgetType::H5)
    } else if str_eq(name, "h6") {
        Some(ComponentWidgetType::H6)
    } else if str_eq(name, "horizontal_break") {
        Some(ComponentWidgetType::HorizontalBreak)
    } else if str_eq(name, "code_block") {
        Some(ComponentWidgetType::CodeBlock)
    } else if str_eq(name, "code") {
        Some(ComponentWidgetType::Code)
    } else if str_eq(name, "content") {
        Some(ComponentWidgetType::Content)
    } else if str_eq(name, "detail") {
        Some(ComponentWidgetType::Detail)
    } else {
        None
    }
}

impl ComponentWidgetType {
    /// The type name of this kind.
    pub fn internal_name(&self) -> (r: String)
        ensures
            r@ == spec_internal_name(*self),
    {
        match self {
            ComponentWidgetType::TextPart => "text_part".to_owned(),
            ComponentWidgetType::Text => "text".to_owned(),
            ComponentWidgetType::Link => "link".to_owned(),
            ComponentWidgetType::Tag => "tag".to_owned(),
            ComponentWidgetType::MetadataItem => "metadata_item".to_owned(),
            ComponentWidgetType::Separator => "separator".to_owned(),
            ComponentWidgetType::Metadata => "metadata".to_owned(),
            ComponentWidgetType::Image => "image".to_owned(),
            ComponentWidgetType::H1 => "h1".to_owned(),
            ComponentWidgetType::H2 => "h2".to_owned(),
            ComponentWidgetType::H3 => "h3".to_owned(),
            ComponentWidgetType::H4 => "h4".to_owned(),
            ComponentWidgetType::H5 => "h5".to_owned(),
            ComponentWidgetType::H6 => "h6".to_owned(),
            ComponentWidgetType::HorizontalBreak => "horizontal_break".to_owned(),
            ComponentWidgetType::CodeBlock => "code_block".to_owned(),
            ComponentWidgetType::Code => "code".to_owned(),
            ComponentWidgetType::Content => "content".to_owned(),
            ComponentWidgetType::Detail => "detail".to_owned(),
            ComponentWidgetType::Root => "root".to_owned(),
        }
    }
}

/// Whether two strings hold the same characters.
pub fn str_eq(a: &str, b: &str) -> (r: bool)
    ensures
        r == (a@ == b@),
{
    a.to_owned() == b.to_owned()
}

/// Whether no two properties have the same name, as in a map from names to
/// values.
pub open spec fn distinct_names(properties: Seq<(String, NativeUiPropertyValue)>) -> bool {
    forall|i: int, j: int|
        0 <= i < j < properties.len() ==> (#[trigger] properties[i]).0@ != (
        #[trigger] properties[j]).0@
}

/// The value of the property named `name`, if any.
pub open spec fn spec_find_property(
    properties: Seq<(String, NativeUiPropertyValue)>,
    name: Seq<char>,
) -> Option<NativeUiPropertyValue>
    decreases properties.len(),
{
    if properties.len() == 0 {
        None
    } else if properties[0].0@ == name {
        Some(properties[0].1)
    } else {
        spec_find_property(properties.drop_first(), name)
    }
}

/// The model of a widget created by name, or the error that its creation gives.
///
/// A link needs a string `href`; a tag takes an optional string `color` and
/// an optional function `onClick`; the other kinds take no property.
pub open spec fn spec_create_widget(
    id: NativeUiWidgetId,
    name: Seq<char>,
    properties: Seq<(String, NativeUiPropertyValue)>,
) -> Result<NodeModel, WidgetError> {
    match spec_kind_from_name(name) {
        None => Err(WidgetError::UnknownWidgetType),
        Some(ComponentWidgetType::Link) => match spec_find_property(properties, "href"@) {
            Some(NativeUiPropertyValue::String(href)) => Ok(
                NodeModel { text: href@, ..leaf_model(id, ComponentWidgetType::Link) },
            ),
            Some(_) => Err(WidgetError::InvalidPropertyType),
            None => Err(WidgetError::MissingProperty),
        },
        Some(ComponentWidgetType::Tag) => {
            let on_click = spec_find_property(properties, "onClick"@);
            let color = spec_find_property(properties, "color"@);
            if on_click matches Some(v) && !(v is Function) {
                Err(WidgetError::InvalidPropertyType)
            } else if color matches Some(v) && !(v is String) {
                Err(WidgetError::InvalidPropertyType)
            } else {
                Ok(
                    NodeModel {
                        on_click: on_click is Some,
                        color: match color {
                            Some(NativeUiPropertyValue::String(c)) => Some(c@),
                            _ => None,
                        },
                        ..leaf_model(id, ComponentWidgetType::Tag)
                    },
                )
            }
        },
        Some(kind) => Ok(leaf_model(id, kind)),
    }
}

/// The property named `name`, if any.
pub fn find_property<'a>(properties: &'a Vec<(String, NativeUiPropertyValue)>, name: &str) -> (r:
    Option<&'a NativeUiPropertyValue>)
    ensures
        match r {
            Some(v) => spec_find_property(properties@, name@) == Some(*v),
            None => spec_find_property(properties@, name@) is None,
        },
{
    let mut i: usize = 0;
    assert(properties@.skip(0) =~= properties@);
    while i < properties.len()
        invariant
            i <= properties.len(),
            spec_find_property(properties@, name@) == spec_find_property(
                properties@.skip(i as int),
                name@,
            ),
        decreases properties.len() - i,
    {
        assert(properties@.skip(i as int).drop_first() =~= properties@.skip(i + 1));
        if str_eq(properties[i].0.as_str(), name) {
            return Some(&properties[i].1);
        }
        i = i + 1;
    }
    None
}

/// A widget of `kind` with no children and no properties.
fn empty_widget(kind: ComponentWidgetType) -> (r: ComponentWidget)
    requires
        !(kind is TextPart || kind is Link || kind is Tag),
    ensures
        forall|id: NativeUiWidgetId| #[trigger] widget_model(id, r) == leaf_model(id, kind),
{
    let r = match kind {
        ComponentWidgetType::Text => ComponentWidget::Text { children: Vec::new() },
        ComponentWidgetType::MetadataItem => ComponentWidget::MetadataItem { children: Vec::new() },
        ComponentWidgetType::Metadata => ComponentWidget::Metadata { children: Vec::new() },
        ComponentWidgetType::H1 => ComponentWidget::H1 { children: Vec::new() },
        ComponentWidgetType::H2 => ComponentWidget::H2 { children: Vec::new() },
        ComponentWidgetType::H3 => ComponentWidget::H3 { children: Vec::new() },
        ComponentWidgetType::H4 => ComponentWidget::H4 { children: Vec::new() },
        ComponentWidgetType::H5 => ComponentWidget::H5 { children: Vec::new() },
        ComponentWidgetType::H6 => ComponentWidget::H6 { children: Vec::new() },
        ComponentWidgetType::CodeBlock => ComponentWidget::CodeBlock { children: Vec::new() },
        ComponentWidgetType::Code => ComponentWidget::Code { children: Vec::new() },
        ComponentWidgetType::Content => ComponentWidget::Content { children: Vec::new() },
        ComponentWidgetType::Detail => ComponentWidget::Detail { children: Vec::new() },
        ComponentWidgetType::Root => ComponentWidget::Root { children: Vec::new() },
        ComponentWidgetType::Separator => ComponentWidget::Separator,
        ComponentWidgetType::Image => ComponentWidget::Image,
        ComponentWidgetType::HorizontalBreak => ComponentWidget::HorizontalBreak,
        _ => ComponentWidget::Separator,
    };
    assert forall|id: NativeUiWidgetId| #[trigger] widget_model(id, r) == leaf_model(id, kind) by {
        assert(widget_model(id, r).children =~= Seq::<ComponentWidgetWrapper>::empty());
    }
    r
}

/// Builds the contents of a widget from its type name and properties.
pub fn create_component_widget(
    widget_type: &str,
    properties: &Vec<(String, NativeUiPropertyValue)>,
) -> (r: Result<ComponentWidget, WidgetError>)
    requires
        distinct_names(properties@),
    ensures
        match r {
            Ok(w) => forall|id: NativeUiWidgetId| #[trigger] spec_create_widget(id, widget_type@, properties@)
                == Ok::<NodeModel, WidgetError>(widget_model(id, w)),
            Err(e) => forall|id: NativeUiWidgetId| #[trigger] spec_create_widget(id, widget_type@, properties@)
                == Err::<NodeModel, WidgetError>(e),
        },
{
    match kind_from_name(widget_type) {
        None => Err(WidgetError::UnknownWidgetType),
        Some(ComponentWidgetType::Link) => match find_property(properties, "href") {
            Some(NativeUiPropertyValue::String(href)) => Ok(
                ComponentWidget::Link { children: Vec::new(), href: href.clone() },
            ),
            Some(_) => Err(WidgetError::InvalidPropertyType),
            None => Err(WidgetError::MissingProperty),
        },
        Some(ComponentWidgetType::Tag) => {
            let on_click = find_property(properties, "onClick");
            let color = find_property(properties, "color");
            let on_click_given = match on_click {
                Some(NativeUiPropertyValue::Function) => true,
                Some(_) => {
                    return Err(WidgetError::InvalidPropertyType);
                },
                None => false,
            };
            let color = match color {
                Some(NativeUiPropertyValue::String(c)) => Some(c.clone()),
                Some(_) => {
                    return Err(WidgetError::InvalidPropertyType);
                },
                None => None,
            };
            Ok(ComponentWidget::Tag { children: Vec::new(), on_click: on_click_given, color })
        },
        Some(kind) => Ok(empty_widget(kind)),
    }
}

impl WidgetNode {
    /// The kind of this widget.
    pub fn widget_type(&self) -> (r: ComponentWidgetType)
        ensures
            r == node_model(*self).kind,
    {
        match &self.widget {
            ComponentWidget::TextPart(_) => ComponentWidgetType::TextPart,
            ComponentWidget::Text { .. } => ComponentWidgetType::Text,
            ComponentWidget::Link { .. } => ComponentWidgetType::Link,
            ComponentWidget::Tag { .. } => ComponentWidgetType::Tag,
            ComponentWidget::MetadataItem { .. } => ComponentWidgetType::MetadataItem,
            ComponentWidget::Separator => ComponentWidgetType::Separator,
            ComponentWidget::Metadata { .. } => ComponentWidgetType::Metadata,
            ComponentWidget::Image => ComponentWidgetType::Image,
            ComponentWidget::H1 { .. } => ComponentWidgetType::H1,
            ComponentWidget::H2 { .. } => ComponentWidgetType::H2,
            ComponentWidget::H3 { .. } => ComponentWidgetType::H3,
            ComponentWidget::H4 { .. } => ComponentWidgetType::H4,
            ComponentWidget::H5 { .. } => ComponentWidgetType::H5,
            ComponentWidget::H6 { .. } => ComponentWidgetType::H6,
            ComponentWidget::HorizontalBreak => ComponentWidgetType::HorizontalBreak,
            ComponentWidget::CodeBlock { .. } => ComponentWidgetType::CodeBlock,
            ComponentWidget::Code { .. } => ComponentWidgetType::Code,
            ComponentWidget::Content { .. } => ComponentWidgetType::Content,
            ComponentWidget::Detail { .. } => ComponentWidgetType::Detail,
            ComponentWidget::Root { .. } => ComponentWidgetType::Root,
        }
    }

    /// The children of this widget, if it is of a kind that holds some.
    pub fn children(&self) -> (r: Option<&Vec<ComponentWidgetWrapper>>)
        ensures
            kind_has_children(node_model(*self).kind) ==> (r matches Some(c) && c@ == node_model(
                *self,
            ).children),
            !kind_has_children(node_model(*self).kind) ==> r is None,
    {
        match &self.widget {
            ComponentWidget::Text { children } => Some(children),
            ComponentWidget::MetadataItem { children } => Some(children),
            ComponentWidget::Metadata { children } => Some(children),
            ComponentWidget::H1 { children } => Some(children),
            ComponentWidget::H2 { children } => Some(children),
            ComponentWidget::H3 { children } => Some(children),
            ComponentWidget::H4 { children } => Some(children),
            ComponentWidget::H5 { children } => Some(children),
            ComponentWidget::H6 { children } => Some(children),
            ComponentWidget::CodeBlock { children } => Some(children),
            ComponentWidget::Code { children } => Some(children),
            ComponentWidget::Content { children } => Some(children),
            ComponentWidget::Detail { children } => Some(children),
            ComponentWidget::Root { children } => Some(children),
            ComponentWidget::Link { children, .. } => Some(children),
            ComponentWidget::Tag { children, .. } => Some(children),
            _ => None,
        }
    }

    /// Puts `new_children` in place of the children; a widget of a kind that
    /// holds no children is left as it was.
    fn replace_children(&mut self, new_children: Vec<ComponentWidgetWrapper>) -> (r: bool)
        ensures
            r == kind_has_children(node_model(*old(self)).kind),
            r ==> node_model(*final(self)) == (NodeModel {
                children: new_children@,
                ..node_model(*old(self))
            }),
            !r ==> node_model(*final(self)) == node_model(*old(self)),
    {
        let mut new_children = new_children;
        match &mut self.widget {
            ComponentWidget::Text { children } => {
                core::mem::swap(children, &mut new_children);
                true
            },
            ComponentWidget::MetadataItem { children } => {
                core::mem::swap(children, &mut new_children);
                true
            },
            ComponentWidget::Metadata { children } => {
                core::mem::swap(children, &mut new_children);
                true
            },
            ComponentWidget::H1 { children } => {
                core::mem::swap(children, &mut new_children);
                true
            },
            ComponentWidget::H2 { children } => {
                core::mem::swap(children, &mut new_children);
                true
            },
            ComponentWidget::H3 { children } => {
                core::mem::swap(children, &mut new_children);
                true
            },
            ComponentWidget::H4 { children } => {
                core::mem::swap(children, &mut new_children);
                true
            },
            ComponentWidget::H5 { children } => {
                core::mem::swap(children, &mut new_children);
                true
            },
            ComponentWidget::H6 { children } => {
                core::mem::swap(children, &mut new_children);
                true
            },
            ComponentWidget::CodeBlock { children } => {
                core::mem::swap(children, &mut new_children);
                true
            },
            ComponentWidget::Code { children } => {
                core::mem::swap(children, &mut new_children);
                true
            },
            ComponentWidget::Content { children } => {
                core::mem::swap(children, &mut new_children);
                true
            },
            ComponentWidget::Detail { children } => {
                core::mem::swap(children, &mut new_children);
                true
            },
            ComponentWidget::Root { children } => {
                core::mem::swap(children, &mut new_children);
                true
            },
            ComponentWidget::Link { children, .. } => {
                core::mem::swap(children, &mut new_children);
                true
            },
            ComponentWidget::Tag { children, .. } => {
                core::mem::swap(children, &mut new_children);
                true
            },
            _ => false,
        }
    }
}

impl WidgetStore {
    /// A store with no widgets.
    pub fn new() -> (r: Self)
        ensures
            r@ == Seq::<NodeModel>::empty(),
    {
        let r = WidgetStore { nodes: Vec::new() };
        assert(r@ =~= Seq::<NodeModel>::empty());
        r
    }

    /// How many widgets the store holds.
    pub fn len(&self) -> (r: usize)
        ensures
            r == self@.len(),
    {
        self.nodes.len()
    }

    /// Whether `h` stands for a widget of the store.
    pub fn contains(&self, h: ComponentWidgetWrapper) -> (r: bool)
        ensures
            r == is_valid_handle(self@, h),
    {
        h.key < self.nodes.len() && self.nodes[h.key].id == h.id
    }

    /// The widget that `h` stands for.
    pub fn node(&self, h: ComponentWidgetWrapper) -> (r: &WidgetNode)
        requires
            is_valid_handle(self@, h),
        ensures
            node_model(*r) == self@[h.key as int],
    {
        &self.nodes[h.key]
    }

    /// The widget at `key`.
    pub fn node_at(&self, key: usize) -> (r: &WidgetNode)
        requires
            key < self@.len(),
        ensures
            node_model(*r) == self@[key as int],
    {
        &self.nodes[key]
    }

    /// Adds a widget, and hands back a handle on it.
    fn insert(&mut self, id: NativeUiWidgetId, widget: ComponentWidget) -> (r: ComponentWidgetWrapper)
        requires
            store_wf(old(self)@),
            widget_model(id, widget).children.len() == 0,
        ensures
            final(self)@ == old(self)@.push(widget_model(id, widget)),
            r.id == id,
            r.key == old(self)@.len(),
            store_wf(final(self)@),
    {
        let key = self.nodes.len();
        let ghost old_nodes = self.nodes@;
        self.nodes.push(WidgetNode { id, widget });
        assert(self@ =~= old(self)@.push(widget_model(id, widget))) by {
            assert(self.nodes@ == old_nodes.push(WidgetNode { id, widget }));
        }
        ComponentWidgetWrapper { id, key }
    }

    /// Puts `new_children` in place of the children of the widget at `key`.
    fn replace_children(&mut self, key: usize, new_children: Vec<ComponentWidgetWrapper>) -> (r: bool)
        requires
            key < old(self)@.len(),
        ensures
            r == kind_has_children(old(self)@[key as int].kind),
            r ==> final(self)@ == old(self)@.update(
                key as int,
                NodeModel { children: new_children@, ..old(self)@[key as int] },
            ),
            !r ==> final(self)@ == old(self)@,
    {
        let ghost old_nodes = self.nodes@;
        let mut node = WidgetNode { id: 0, widget: ComponentWidget::Separator };
        core::mem::swap(&mut node, &mut self.nodes[key]);
        let r = node.replace_children(new_children);
        core::mem::swap(&mut node, &mut self.nodes[key]);
        assert(self.nodes@ =~= old_nodes.update(key as int, self.nodes@[key as int]));
        if r {
            assert(self@ =~= old(self)@.update(
                key as int,
                NodeModel { children: new_children@, ..old(self)@[key as int] },
            ));
        } else {
            assert(self@ =~= old(self)@);
        }
        r
    }
}

impl ComponentWidgetWrapper {
    /// A widget created by type name, with the given properties.
    pub fn widget(
        store: &mut WidgetStore,
        id: NativeUiWidgetId,
        widget_type: &str,
        properties: Vec<(String, NativeUiPropertyValue)>,
    ) -> (r: Result<Self, WidgetError>)
        requires
            store_wf(old(store)@),
            distinct_names(properties@),
        ensures
            store_wf(final(store)@),
            match r {
                Ok(h) => spec_create_widget(id, widget_type@, properties@) == Ok::<
                    NodeModel,
                    WidgetError,
                >(final(store)@[h.key as int]) && final(store)@ == old(store)@.push(
                    final(store)@[h.key as int],
                ) && h.id == id && h.key == old(store)@.len(),
                Err(e) => spec_create_widget(id, widget_type@, properties@) == Err::<
                    NodeModel,
                    WidgetError,
                >(e) && final(store)@ == old(store)@,
            },
    {
        let w = create_component_widget(widget_type, &properties)?;
        Ok(store.insert(id, w))
    }

    /// The root widget of a view, with no children yet.
    pub fn root(store: &mut WidgetStore, id: NativeUiWidgetId) -> (r: Self)
        requires
            store_wf(old(store)@),
        ensures
            store_wf(final(store)@),
            final(store)@ == old(store)@.push(leaf_model(id, ComponentWidgetType::Root)),
            r.id == id,
            r.key == old(store)@.len(),
    {
        let w = ComponentWidget::Root { children: Vec::new() };
        assert(widget_model(id, w) =~~= leaf_model(id, ComponentWidgetType::Root));
        store.insert(id, w)
    }

    /// A text part holding the given text.
    pub fn text_part(store: &mut WidgetStore, id: NativeUiWidgetId, text: &str) -> (r: Result<
        Self,
        WidgetError,
    >)
        requires
            store_wf(old(store)@),
        ensures
            store_wf(final(store)@),
            final(store)@ == old(store)@.push(
                NodeModel { text: text@, ..leaf_model(id, ComponentWidgetType::TextPart) },
            ),
            r matches Ok(h) && h.id == id && h.key == old(store)@.len(),
    {
        let w = ComponentWidget::TextPart(text.to_owned());
        assert(widget_model(id, w) =~~= NodeModel {
            text: text@,
            ..leaf_model(id, ComponentWidgetType::TextPart)
        });
        Ok(store.insert(id, w))
    }

    /// The kind of the widget.
    pub fn widget_type(&self, store: &WidgetStore) -> (r: ComponentWidgetType)
        requires
            is_valid_handle(store@, *self),
        ensures
            r == store@[self.key as int].kind,
    {
        store.node(*self).widget_type()
    }

    /// The id and the type name of the widget.
    pub fn as_native_widget(&self, store: &WidgetStore) -> (r: NativeUiWidget)
        requires
            is_valid_handle(store@, *self),
        ensures
            r.widget_id == self.id,
            r.widget_type@ == spec_internal_name(store@[self.key as int].kind),
    {
        let kind = self.widget_type(store);
        NativeUiWidget { widget_id: self.id, widget_type: kind.internal_name() }
    }

    /// Handles on the children of the widget.
    pub fn get_children(&self, store: &WidgetStore) -> (r: Result<Vec<Self>, WidgetError>)
        requires
            is_valid_handle(store@, *self),
        ensures
            match r {
                Ok(v) => spec_get_children(store@[self.key as int]) == Ok::<
                    Seq<ComponentWidgetWrapper>,
                    WidgetError,
                >(v@),
                Err(e) => spec_get_children(store@[self.key as int]) == Err::<
                    Seq<ComponentWidgetWrapper>,
                    WidgetError,
                >(e),
            },
    {
        match store.node(*self).children() {
            Some(children) => {
                let v = children.clone();
                assert(v@ =~= children@);
                Ok(v)
            },
            None => Err(WidgetError::CannotHaveChildren),
        }
    }

    /// Puts the widgets of `new_children` in place of the children of the widget.
    pub fn set_children(&self, store: &mut WidgetStore, new_children: Vec<Self>) -> (r: Result<
        (),
        WidgetError,
    >)
        requires
            store_wf(old(store)@),
            is_valid_handle(old(store)@, *self),
            forall|i: int|
                0 <= i < new_children@.len() ==> is_valid_handle(
                    old(store)@,
                    #[trigger] new_children@[i],
                ),
        ensures
            store_wf(final(store)@),
            match r {
                Ok(()) => spec_set_children(old(store)@[self.key as int], new_children@) == Ok::<
                    NodeModel,
                    WidgetError,
                >(final(store)@[self.key as int]) && final(store)@ == old(store)@.update(
                    self.key as int,
                    final(store)@[self.key as int],
                ),
                Err(e) => spec_set_children(old(store)@[self.key as int], new_children@) == Err::<
                    NodeModel,
                    WidgetError,
                >(e) && final(store)@ == old(store)@,
            },
    {
        if store.replace_children(self.key, new_children) {
            Ok(())
        } else {
            Err(WidgetError::CannotHaveChildren)
        }
    }

    /// Adds the widget of `child` after the children of the widget.
    pub fn append_child(&self, store: &mut WidgetStore, child: Self) -> (r: Result<(), WidgetError>)
        requires
            store_wf(old(store)@),
            is_valid_handle(old(store)@, *self),
            is_valid_handle(old(store)@, child),
        ensures
            store_wf(final(store)@),
            match r {
                Ok(()) => spec_append_child(old(store)@[self.key as int], child) == Ok::<
                    NodeModel,
                    WidgetError,
                >(final(store)@[self.key as int]) && final(store)@ == old(store)@.update(
                    self.key as int,
                    final(store)@[self.key as int],
                ),
                Err(e) => spec_append_child(old(store)@[self.key as int], child) == Err::<
                    NodeModel,
                    WidgetError,
                >(e) && final(store)@ == old(store)@,
            },
    {
        match self.get_children(store) {
            Ok(children) => {
                let mut children = children;
                children.push(child);
                self.set_children(store, children)
            },
            Err(e) => Err(e),
        }
    }
}

} // verus!
