use vstd::prelude::*;

use crate::native_ui::{
    AppCommand, AppModel, AppMsg, AppState, AppView, BuiltInWidgetEvent, KeyCode,
    NativeUiSearchResult, UiEvent, is_command_for,
    is_view_of, open_view_msg, spec_update, view_event_msg,
};
use crate::render::ComponentWidgetEvent;
use crate::render::{
    ButtonStyle, ComponentRenderContext, EventModel, RenderModel, RenderedElement, filter_kind, lemma_render_all,
    renderable, renderable_all, spec_render,
};
use crate::dbus::{DBusSearchResult, SearchIndexResult, spec_dbus_result};
use crate::search::{
    DbPluginEntrypoint, DbPluginEntrypointType, SearchIndexItem, GeneratedSearchItem, SearchResultEntrypointType, is_searchable,
    spec_entrypoint_item, spec_entrypoint_items, spec_plugin_items,
};
use crate::widget::{
    ComponentWidgetType, ComponentWidgetWrapper, NativeUiPropertyValue, NativeUiWidgetId,
    NodeModel, WidgetError, is_valid_handle, store_wf, kind_has_children, spec_append_child,
    spec_create_widget, spec_find_property, spec_get_children, spec_internal_name, spec_kind_from_name,
    spec_set_children,
};

verus! {

/// After a child is added through a handle, reading the children through
/// that handle or any copy of it gives the children that were there, then the
/// child.
pub proof fn law_get_after_append(
    s: Seq<NodeModel>,
    s2: Seq<NodeModel>,
    h: ComponentWidgetWrapper,
    copy: ComponentWidgetWrapper,
    child: ComponentWidgetWrapper,
)
    requires
        is_valid_handle(s, h),
        copy == h,
        spec_append_child(s[h.key as int], child) == Ok::<NodeModel, WidgetError>(s2[h.key as int]),
        s2 == s.update(h.key as int, s2[h.key as int]),
    ensures
        spec_get_children(s2[copy.key as int]) == Ok::<Seq<ComponentWidgetWrapper>, WidgetError>(
            spec_get_children(s[h.key as int])->Ok_0.push(child),
        ),
{
}

/// After the children are replaced through a handle, reading them through
/// that handle or any copy of it gives the new children.
pub proof fn law_get_after_set(
    s: Seq<NodeModel>,
    s2: Seq<NodeModel>,
    h: ComponentWidgetWrapper,
    copy: ComponentWidgetWrapper,
    children: Seq<ComponentWidgetWrapper>,
)
    requires
        is_valid_handle(s, h),
        copy == h,
        spec_set_children(s[h.key as int], children) == Ok::<NodeModel, WidgetError>(
            s2[h.key as int],
        ),
        s2 == s.update(h.key as int, s2[h.key as int]),
    ensures
        spec_get_children(s2[copy.key as int]) == Ok::<Seq<ComponentWidgetWrapper>, WidgetError>(
            children,
        ),
{
}

/// An added child is the very widget that was added: a later change of its
/// children, made through the handle that was added, is seen through the
/// handle that its parent lists.
pub proof fn law_added_child_is_shared(
    s: Seq<NodeModel>,
    s1: Seq<NodeModel>,
    s2: Seq<NodeModel>,
    parent: ComponentWidgetWrapper,
    child: ComponentWidgetWrapper,
    grandchildren: Seq<ComponentWidgetWrapper>,
)
    requires
        is_valid_handle(s, parent),
        is_valid_handle(s, child),
        parent.key != child.key,
        spec_append_child(s[parent.key as int], child) == Ok::<NodeModel, WidgetError>(
            s1[parent.key as int],
        ),
        s1 == s.update(parent.key as int, s1[parent.key as int]),
        spec_set_children(s1[child.key as int], grandchildren) == Ok::<NodeModel, WidgetError>(
            s2[child.key as int],
        ),
        s2 == s1.update(child.key as int, s2[child.key as int]),
    ensures
        spec_get_children(s2[parent.key as int]) is Ok,
        spec_get_children(s2[parent.key as int])->Ok_0.last() == child,
        spec_get_children(
            s2[spec_get_children(s2[parent.key as int])->Ok_0.last().key as int],
        ) == Ok::<Seq<ComponentWidgetWrapper>, WidgetError>(grandchildren),
{
}

/// Adding or replacing children changes no widget but the one they are
/// added to.
pub proof fn law_other_widgets_unchanged(
    s: Seq<NodeModel>,
    s2: Seq<NodeModel>,
    h: ComponentWidgetWrapper,
    k: int,
)
    requires
        is_valid_handle(s, h),
        s2 == s.update(h.key as int, s2[h.key as int]),
        0 <= k < s.len(),
        k != h.key,
    ensures
        s2[k] == s[k],
{
}

/// Putting back the children that a widget has leaves it as it was.
pub proof fn law_set_what_get_gives(m: NodeModel)
    requires
        spec_get_children(m) is Ok,
    ensures
        spec_set_children(m, spec_get_children(m)->Ok_0) == Ok::<NodeModel, WidgetError>(m),
{
}

/// Reading, replacing and adding children succeed on the same widgets, those
/// of the kinds that hold children; on the others each fails with
/// `CannotHaveChildren` .
pub proof fn law_children_operations_agree(
    m: NodeModel,
    child: ComponentWidgetWrapper,
    children: Seq<ComponentWidgetWrapper>,
)
    ensures
        spec_get_children(m) is Ok <==> kind_has_children(m.kind),
        spec_set_children(m, children) is Ok <==> kind_has_children(m.kind),
        spec_append_child(m, child) is Ok <==> kind_has_children(m.kind),
        !kind_has_children(m.kind) ==> spec_get_children(m) == Err::<
            Seq<ComponentWidgetWrapper>,
            WidgetError,
        >(WidgetError::CannotHaveChildren) && spec_set_children(m, children) == Err::<
            NodeModel,
            WidgetError,
        >(WidgetError::CannotHaveChildren) && spec_append_child(m, child) == Err::<
            NodeModel,
            WidgetError,
        >(WidgetError::CannotHaveChildren),
{
}

/// Text parts, separators, images and horizontal breaks hold no children:
/// reading, replacing or adding children fails on them. Every other widget,
/// each heading among them, holds children: reading gives its children,
/// replacing puts the new ones in their place, and adding puts the child
/// after them, and nothing else of the widget changes.
pub proof fn law_which_widgets_hold_children(
    m: NodeModel,
    child: ComponentWidgetWrapper,
    children: Seq<ComponentWidgetWrapper>,
)
    ensures
        (m.kind == ComponentWidgetType::TextPart || m.kind == ComponentWidgetType::Separator
            || m.kind == ComponentWidgetType::Image || m.kind
            == ComponentWidgetType::HorizontalBreak) ==> {
            &&& spec_get_children(m) == Err::<Seq<ComponentWidgetWrapper>, WidgetError>(
                WidgetError::CannotHaveChildren,
            )
            &&& spec_set_children(m, children) == Err::<NodeModel, WidgetError>(
                WidgetError::CannotHaveChildren,
            )
            &&& spec_append_child(m, child) == Err::<NodeModel, WidgetError>(
                WidgetError::CannotHaveChildren,
            )
        },
        !(m.kind == ComponentWidgetType::TextPart || m.kind == ComponentWidgetType::Separator
            || m.kind == ComponentWidgetType::Image || m.kind
            == ComponentWidgetType::HorizontalBreak) ==> {
            &&& spec_get_children(m) == Ok::<Seq<ComponentWidgetWrapper>, WidgetError>(m.children)
            &&& spec_set_children(m, children) == Ok::<NodeModel, WidgetError>(
                NodeModel { children, ..m },
            )
            &&& spec_append_child(m, child) == Ok::<NodeModel, WidgetError>(
                NodeModel { children: m.children.push(child), ..m },
            )
            &&& spec_get_children(spec_append_child(m, child)->Ok_0) == Ok::<
                Seq<ComponentWidgetWrapper>,
                WidgetError,
            >(m.children.push(child))
        },
{
}

/// The property found under a name is the first one of that name; none is
/// found exactly when no property has that name.
pub proof fn law_find_property_finds_the_first_of_its_name(
    properties: Seq<(String, NativeUiPropertyValue)>,
    name: Seq<char>,
)
    ensures
        spec_find_property(properties, name) is None <==> forall|i: int|
            0 <= i < properties.len() ==> (#[trigger] properties[i]).0@ != name,
        spec_find_property(properties, name) is Some ==> exists|i: int|
            0 <= i < properties.len() && (#[trigger] properties[i]).0@ == name && properties[i].1
                == spec_find_property(properties, name)->Some_0 && forall|j: int|
                0 <= j < i ==> (#[trigger] properties[j]).0@ != name,
    decreases properties.len(),
{
    if properties.len() > 0 {
        let rest = properties.drop_first();
        law_find_property_finds_the_first_of_its_name(rest, name);
        if properties[0].0@ == name {
            assert(forall|j: int| 0 <= j < 0 ==> (#[trigger] properties[j]).0@ != name);
        } else {
            assert forall|i: int| 0 <= i < rest.len() implies (#[trigger] rest[i]) == properties[i
                + 1] by {}
            if spec_find_property(rest, name) is Some {
                let i = choose|i: int|
                    0 <= i < rest.len() && (#[trigger] rest[i]).0@ == name && rest[i].1
                        == spec_find_property(rest, name)->Some_0 && forall|j: int|
                        0 <= j < i ==> (#[trigger] rest[j]).0@ != name;
                assert(properties[i + 1] == rest[i]);
                assert forall|j: int| 0 <= j < i + 1 implies (#[trigger] properties[j]).0@ != name by {
                    if j > 0 {
                        assert(properties[j] == rest[j - 1]);
                    }
                }
            }
            if forall|i: int| 0 <= i < rest.len() ==> (#[trigger] rest[i]).0@ != name {
                assert forall|i: int| 0 <= i < properties.len() implies (#[trigger] properties[i]).0@
                    != name by {
                    if i > 0 {
                        assert(properties[i] == rest[i - 1]);
                    }
                }
            }
            if forall|i: int| 0 <= i < properties.len() ==> (#[trigger] properties[i]).0@ != name {
                assert forall|i: int| 0 <= i < rest.len() implies (#[trigger] rest[i]).0@ != name by {
                    assert(rest[i] == properties[i + 1]);
                }
            }
        }
    }
}

/// A link is made from a string `href`, which it keeps as its address; a link
/// without `href` is refused as missing it, and one whose `href` is not a
/// string as having a wrong property.
pub proof fn law_link_needs_a_string_href(
    id: NativeUiWidgetId,
    properties: Seq<(String, NativeUiPropertyValue)>,
)
    ensures
        spec_find_property(properties, "href"@) matches Some(NativeUiPropertyValue::String(href))
            ==> spec_create_widget(id, "link"@, properties) == Ok::<NodeModel, WidgetError>(
            NodeModel {
                id,
                kind: ComponentWidgetType::Link,
                text: href@,
                on_click: false,
                color: None,
                children: Seq::empty(),
            },
        ),
        spec_find_property(properties, "href"@) is None ==> spec_create_widget(
            id,
            "link"@,
            properties,
        ) == Err::<NodeModel, WidgetError>(WidgetError::MissingProperty),
        spec_find_property(properties, "href"@) matches Some(v) && !(v is String)
            ==> spec_create_widget(id, "link"@, properties) == Err::<NodeModel, WidgetError>(
            WidgetError::InvalidPropertyType,
        ),
{
    law_type_names_lead_back(ComponentWidgetType::Link);
}

/// A tag takes an optional function `onClick` and an optional string `color`:
/// it keeps whether it has a click handler and its color; a property of the
/// wrong kind is refused.
pub proof fn law_tag_takes_click_and_color(
    id: NativeUiWidgetId,
    properties: Seq<(String, NativeUiPropertyValue)>,
)
    ensures
        ({
            let on_click = spec_find_property(properties, "onClick"@);
            let color = spec_find_property(properties, "color"@);
            &&& (on_click is None || on_click->Some_0 is Function) && (color is None
                || color->Some_0 is String) ==> spec_create_widget(id, "tag"@, properties) == Ok::<
                NodeModel,
                WidgetError,
            >(
                NodeModel {
                    id,
                    kind: ComponentWidgetType::Tag,
                    text: Seq::empty(),
                    on_click: on_click is Some,
                    color: if color is Some {
                        Some(color->Some_0->String_0@)
                    } else {
                        None
                    },
                    children: Seq::empty(),
                },
            )
            &&& (on_click is Some && !(on_click->Some_0 is Function)) || (color is Some
                && !(color->Some_0 is String)) ==> spec_create_widget(id, "tag"@, properties)
                == Err::<NodeModel, WidgetError>(WidgetError::InvalidPropertyType)
        }),
{
    law_type_names_lead_back(ComponentWidgetType::Tag);
}

/// Every kind that a plugin creates by name, but links and tags, is made
/// from its type name alone: with the given id, no text, no click handler, no
/// color and no children, whatever properties come with it.
pub proof fn law_plain_kinds_ignore_properties(
    id: NativeUiWidgetId,
    kind: ComponentWidgetType,
    properties: Seq<(String, NativeUiPropertyValue)>,
)
    requires
        kind != ComponentWidgetType::TextPart,
        kind != ComponentWidgetType::Root,
        kind != ComponentWidgetType::Link,
        kind != ComponentWidgetType::Tag,
    ensures
        spec_create_widget(id, spec_internal_name(kind), properties) == Ok::<NodeModel, WidgetError>(
            NodeModel {
                id,
                kind,
                text: Seq::empty(),
                on_click: false,
                color: None,
                children: Seq::empty(),
            },
        ),
{
    law_type_names_lead_back(kind);
}

/// A name that is not the type name of a kind that a plugin creates by name
/// is refused as unknown.
pub proof fn law_unknown_names_are_refused(
    id: NativeUiWidgetId,
    name: Seq<char>,
    properties: Seq<(String, NativeUiPropertyValue)>,
)
    requires
        forall|kind: ComponentWidgetType|
            kind != ComponentWidgetType::TextPart && kind != ComponentWidgetType::Root ==> name
                != #[trigger] spec_internal_name(kind),
    ensures
        spec_create_widget(id, name, properties) == Err::<NodeModel, WidgetError>(
            WidgetError::UnknownWidgetType,
        ),
{
    assert(name != spec_internal_name(ComponentWidgetType::Text));
    assert(name != spec_internal_name(ComponentWidgetType::Link));
    assert(name != spec_internal_name(ComponentWidgetType::Tag));
    assert(name != spec_internal_name(ComponentWidgetType::MetadataItem));
    assert(name != spec_internal_name(ComponentWidgetType::Separator));
    assert(name != spec_internal_name(ComponentWidgetType::Metadata));
    assert(name != spec_internal_name(ComponentWidgetType::Image));
    assert(name != spec_internal_name(ComponentWidgetType::H1));
    assert(name != spec_internal_name(ComponentWidgetType::H2));
    assert(name != spec_internal_name(ComponentWidgetType::H3));
    assert(name != spec_internal_name(ComponentWidgetType::H4));
    assert(name != spec_internal_name(ComponentWidgetType::H5));
    assert(name != spec_internal_name(ComponentWidgetType::H6));
    assert(name != spec_internal_name(ComponentWidgetType::HorizontalBreak));
    assert(name != spec_internal_name(ComponentWidgetType::CodeBlock));
    assert(name != spec_internal_name(ComponentWidgetType::Code));
    assert(name != spec_internal_name(ComponentWidgetType::Content));
    assert(name != spec_internal_name(ComponentWidgetType::Detail));
}

/// A widget created by type name has the given id, reports that type name,
/// and has no children yet.
pub proof fn law_created_widget_reports_its_type(
    id: NativeUiWidgetId,
    name: Seq<char>,
    properties: Seq<(String, NativeUiPropertyValue)>,
)
    requires
        spec_create_widget(id, name, properties) is Ok,
    ensures
        spec_create_widget(id, name, properties)->Ok_0.id == id,
        spec_internal_name(spec_create_widget(id, name, properties)->Ok_0.kind) == name,
        spec_create_widget(id, name, properties)->Ok_0.children.len() == 0,
{
}

/// The length, first and last character of each type name; no two kinds
/// share all three.
pub open spec fn name_fingerprint(kind: ComponentWidgetType) -> (nat, char, char) {
    match kind {
        ComponentWidgetType::TextPart => (9, 't', 't'),
        ComponentWidgetType::Text => (4, 't', 't'),
        ComponentWidgetType::Link => (4, 'l', 'k'),
        ComponentWidgetType::Tag => (3, 't', 'g'),
        ComponentWidgetType::MetadataItem => (13, 'm', 'm'),
        ComponentWidgetType::Separator => (9, 's', 'r'),
        ComponentWidgetType::Metadata => (8, 'm', 'a'),
        ComponentWidgetType::Image => (5, 'i', 'e'),
        ComponentWidgetType::H1 => (2, 'h', '1'),
        ComponentWidgetType::H2 => (2, 'h', '2'),
        ComponentWidgetType::H3 => (2, 'h', '3'),
        ComponentWidgetType::H4 => (2, 'h', '4'),
        ComponentWidgetType::H5 => (2, 'h', '5'),
        ComponentWidgetType::H6 => (2, 'h', '6'),
        ComponentWidgetType::HorizontalBreak => (16, 'h', 'k'),
        ComponentWidgetType::CodeBlock => (10, 'c', 'k'),
        ComponentWidgetType::Code => (4, 'c', 'e'),
        ComponentWidgetType::Content => (7, 'c', 't'),
        ComponentWidgetType::Detail => (6, 'd', 'l'),
        ComponentWidgetType::Root => (4, 'r', 't'),
    }
}

proof fn lemma_name_fingerprint(kind: ComponentWidgetType)
    ensures
        spec_internal_name(kind).len() == name_fingerprint(kind).0,
        spec_internal_name(kind)[0] == name_fingerprint(kind).1,
        spec_internal_name(kind)[spec_internal_name(kind).len() - 1] == name_fingerprint(kind).2,
{
    match kind {
        ComponentWidgetType::TextPart => {
            reveal_strlit("text_part");
        },
        ComponentWidgetType::Text => {
            reveal_strlit("text");
        },
        ComponentWidgetType::Link => {
            reveal_strlit("link");
        },
        ComponentWidgetType::Tag => {
            reveal_strlit("tag");
        },
        ComponentWidgetType::MetadataItem => {
            reveal_strlit("metadata_item");
        },
        ComponentWidgetType::Separator => {
            reveal_strlit("separator");
        },
        ComponentWidgetType::Metadata => {
            reveal_strlit("metadata");
        },
        ComponentWidgetType::Image => {
            reveal_strlit("image");
        },
        ComponentWidgetType::H1 => {
            reveal_strlit("h1");
        },
        ComponentWidgetType::H2 => {
            reveal_strlit("h2");
        },
        ComponentWidgetType::H3 => {
            reveal_strlit("h3");
        },
        ComponentWidgetType::H4 => {
            reveal_strlit("h4");
        },
        ComponentWidgetType::H5 => {
            reveal_strlit("h5");
        },
        ComponentWidgetType::H6 => {
            reveal_strlit("h6");
        },
        ComponentWidgetType::HorizontalBreak => {
            reveal_strlit("horizontal_break");
        },
        ComponentWidgetType::CodeBlock => {
            reveal_strlit("code_block");
        },
        ComponentWidgetType::Code => {
            reveal_strlit("code");
        },
        ComponentWidgetType::Content => {
            reveal_strlit("content");
        },
        ComponentWidgetType::Detail => {
            reveal_strlit("detail");
        },
        ComponentWidgetType::Root => {
            reveal_strlit("root");
        },
    }
}

/// No two kinds have the same type name.
pub proof fn law_type_names_differ(a: ComponentWidgetType, b: ComponentWidgetType)
    requires
        spec_internal_name(a) == spec_internal_name(b),
    ensures
        a == b,
{
    lemma_name_fingerprint(a);
    lemma_name_fingerprint(b);
}

/// The type name of every kind that a plugin creates by name leads back to
/// that kind.
pub proof fn law_type_names_lead_back(kind: ComponentWidgetType)
    requires
        kind != ComponentWidgetType::TextPart,
        kind != ComponentWidgetType::Root,
    ensures
        spec_kind_from_name(spec_internal_name(kind)) == Some(kind),
{
    assert forall|other: ComponentWidgetType|
        spec_internal_name(other) == spec_internal_name(kind) implies other == kind by {
        law_type_names_differ(other, kind);
    }
    let name = spec_internal_name(kind);
    assert(spec_internal_name(ComponentWidgetType::Text) == name ==> kind
        == ComponentWidgetType::Text);
    assert(spec_internal_name(ComponentWidgetType::Link) == name ==> kind
        == ComponentWidgetType::Link);
    assert(spec_internal_name(ComponentWidgetType::Tag) == name ==> kind
        == ComponentWidgetType::Tag);
    assert(spec_internal_name(ComponentWidgetType::MetadataItem) == name ==> kind
        == ComponentWidgetType::MetadataItem);
    assert(spec_internal_name(ComponentWidgetType::Separator) == name ==> kind
        == ComponentWidgetType::Separator);
    assert(spec_internal_name(ComponentWidgetType::Metadata) == name ==> kind
        == ComponentWidgetType::Metadata);
    assert(spec_internal_name(ComponentWidgetType::Image) == name ==> kind
        == ComponentWidgetType::Image);
    assert(spec_internal_name(ComponentWidgetType::H1) == name ==> kind
        == ComponentWidgetType::H1);
    assert(spec_internal_name(ComponentWidgetType::H2) == name ==> kind
        == ComponentWidgetType::H2);
    assert(spec_internal_name(ComponentWidgetType::H3) == name ==> kind
        == ComponentWidgetType::H3);
    assert(spec_internal_name(ComponentWidgetType::H4) == name ==> kind
        == ComponentWidgetType::H4);
    assert(spec_internal_name(ComponentWidgetType::H5) == name ==> kind
        == ComponentWidgetType::H5);
    assert(spec_internal_name(ComponentWidgetType::H6) == name ==> kind
        == ComponentWidgetType::H6);
    assert(spec_internal_name(ComponentWidgetType::HorizontalBreak) == name ==> kind
        == ComponentWidgetType::HorizontalBreak);
    assert(spec_internal_name(ComponentWidgetType::CodeBlock) == name ==> kind
        == ComponentWidgetType::CodeBlock);
    assert(spec_internal_name(ComponentWidgetType::Code) == name ==> kind
        == ComponentWidgetType::Code);
    assert(spec_internal_name(ComponentWidgetType::Content) == name ==> kind
        == ComponentWidgetType::Content);
    assert(spec_internal_name(ComponentWidgetType::Detail) == name ==> kind
        == ComponentWidgetType::Detail);
}

/// Rendering reads the store only, and two renderings of one widget under
/// one heading level give the same element.
pub proof fn law_rendering_is_deterministic(
    s: Seq<NodeModel>,
    key: int,
    context: ComponentRenderContext,
    r1: RenderedElement,
    r2: RenderedElement,
)
    requires
        r1@ == spec_render(s, key, context, s.len()),
        r2@ == spec_render(s, key, context, s.len()),
    ensures
        r1@ == r2@,
{
}

/// Whether the widgets shown from the one at `key` go at most `fuel` levels deep.
pub open spec fn depth_within(s: Seq<NodeModel>, key: int, fuel: nat) -> bool
    decreases fuel, 0int,
{
    if fuel == 0 || !(0 <= key < s.len()) {
        false
    } else {
        depth_within_all(s, s[key].children, (fuel - 1) as nat)
    }
}

pub open spec fn depth_within_all(s: Seq<NodeModel>, hs: Seq<ComponentWidgetWrapper>, fuel: nat) -> bool
    decreases fuel, hs.len(),
{
    if hs.len() == 0 {
        true
    } else {
        depth_within_all(s, hs.drop_last(), fuel) && depth_within(s, hs.last().key as int, fuel)
    }
}

pub proof fn lemma_depth_within_all(s: Seq<NodeModel>, hs: Seq<ComponentWidgetWrapper>, fuel: nat)
    ensures
        depth_within_all(s, hs, fuel) <==> forall|i: int|
            0 <= i < hs.len() ==> depth_within(s, #[trigger] hs[i].key as int, fuel),
    decreases hs.len(),
{
    if hs.len() > 0 {
        lemma_depth_within_all(s, hs.drop_last(), fuel);
        if forall|i: int| 0 <= i < hs.len() ==> depth_within(s, #[trigger] hs[i].key as int, fuel) {
            assert(depth_within(s, hs[hs.len() - 1].key as int, fuel));
            assert forall|i: int| 0 <= i < hs.drop_last().len() implies depth_within(
                s,
                #[trigger] hs.drop_last()[i].key as int,
                fuel,
            ) by {
                assert(depth_within(s, hs[i].key as int, fuel));
            }
        }
        if depth_within_all(s, hs, fuel) {
            assert forall|i: int| 0 <= i < hs.len() implies depth_within(
                s,
                #[trigger] hs[i].key as int,
                fuel,
            ) by {
                if i < hs.len() - 1 {
                    assert(depth_within(s, hs.drop_last()[i].key as int, fuel));
                }
            }
        }
    }
}

/// Whether every detail of the store has exactly one metadata child and one
/// content child.
pub open spec fn details_well_formed(s: Seq<NodeModel>) -> bool {
    forall|k: int|
        0 <= k < s.len() && (#[trigger] s[k]).kind == ComponentWidgetType::Detail ==> {
            &&& filter_kind(s, s[k].children, ComponentWidgetType::Metadata).len() == 1
            &&& filter_kind(s, s[k].children, ComponentWidgetType::Content).len() == 1
        }
}

proof fn lemma_filter_kind_members(
    s: Seq<NodeModel>,
    hs: Seq<ComponentWidgetWrapper>,
    kind: ComponentWidgetType,
)
    ensures
        forall|i: int|
            0 <= i < filter_kind(s, hs, kind).len() ==> hs.contains(
                #[trigger] filter_kind(s, hs, kind)[i],
            ),
    decreases hs.len(),
{
    if hs.len() > 0 {
        let rest = hs.drop_last();
        lemma_filter_kind_members(s, rest, kind);
        assert forall|i: int| 0 <= i < filter_kind(s, hs, kind).len() implies hs.contains(
            #[trigger] filter_kind(s, hs, kind)[i],
        ) by {
            if i < filter_kind(s, rest, kind).len() {
                let x = filter_kind(s, rest, kind)[i];
                assert(filter_kind(s, hs, kind)[i] == x);
                let j = choose|j: int| 0 <= j < rest.len() && rest[j] == x;
                assert(hs[j] == x);
            } else {
                assert(filter_kind(s, hs, kind)[i] == hs[hs.len() - 1]);
            }
        }
    }
}

/// Rendering is defined on every widget whose descendants go no deeper than
/// the fuel, in a store whose details each have exactly one metadata child
/// and one content child.
pub proof fn law_shallow_widget_is_renderable(s: Seq<NodeModel>, key: int, fuel: nat)
    requires
        details_well_formed(s),
        depth_within(s, key, fuel),
    ensures
        renderable(s, key, fuel),
    decreases fuel, 0int,
{
    let children = s[key].children;
    let f = (fuel - 1) as nat;
    if s[key].kind == ComponentWidgetType::Detail {
        let metadata = filter_kind(s, children, ComponentWidgetType::Metadata);
        let content = filter_kind(s, children, ComponentWidgetType::Content);
        lemma_depth_within_all(s, children, f);
        lemma_filter_kind_members(s, children, ComponentWidgetType::Metadata);
        lemma_filter_kind_members(s, children, ComponentWidgetType::Content);
        assert(children.contains(metadata[0]));
        assert(children.contains(content[0]));
        let jm = choose|j: int| 0 <= j < children.len() && children[j] == metadata[0];
        let jc = choose|j: int| 0 <= j < children.len() && children[j] == content[0];
        assert(depth_within(s, children[jm].key as int, f));
        assert(depth_within(s, children[jc].key as int, f));
        law_shallow_widget_is_renderable(s, metadata[0].key as int, f);
        law_shallow_widget_is_renderable(s, content[0].key as int, f);
    } else {
        lemma_well_formed_details_all_renderable(s, children, f);
    }
}

proof fn lemma_well_formed_details_all_renderable(
    s: Seq<NodeModel>,
    hs: Seq<ComponentWidgetWrapper>,
    fuel: nat,
)
    requires
        details_well_formed(s),
        depth_within_all(s, hs, fuel),
    ensures
        renderable_all(s, hs, fuel),
    decreases fuel, hs.len(),
{
    if hs.len() > 0 {
        lemma_well_formed_details_all_renderable(s, hs.drop_last(), fuel);
        law_shallow_widget_is_renderable(s, hs.last().key as int, fuel);
    }
}

/// Whether the widget at `b` is a child of the one at `a`.
pub open spec fn is_child_of(s: Seq<NodeModel>, a: int, b: int) -> bool {
    exists|j: int| 0 <= j < s[a].children.len() && s[a].children[j].key == b
}

/// Whether the step from `p[i]` to `p[i + 1]` goes from a widget to a child of it.
pub open spec fn path_step(s: Seq<NodeModel>, p: Seq<int>, i: int) -> bool {
    is_child_of(s, p[i], p[i + 1])
}

/// Whether `p` is a chain of widgets of `s`, each a child of the one before.
pub open spec fn is_child_path(s: Seq<NodeModel>, p: Seq<int>) -> bool {
    &&& p.len() >= 1
    &&& forall|i: int| 0 <= i < p.len() ==> 0 <= #[trigger] p[i] < s.len()
    &&& forall|i: int| 0 <= i < p.len() - 1 ==> #[trigger] path_step(s, p, i)
}

/// Whether no chain of children that starts at the widget at `key` meets a
/// widget twice.
pub open spec fn no_cycle_below(s: Seq<NodeModel>, key: int) -> bool {
    forall|p: Seq<int>| #[trigger] is_child_path(s, p) && p[0] == key ==> p.no_duplicates()
}

/// Where the widgets below `key` go deeper than `n` levels, a chain of
/// `n + 1` widgets starts at `key`.
proof fn lemma_deep_path(s: Seq<NodeModel>, key: int, n: nat) -> (p: Seq<int>)
    requires
        store_wf(s),
        0 <= key < s.len(),
        !depth_within(s, key, n),
    ensures
        is_child_path(s, p),
        p[0] == key,
        p.len() == n + 1,
    decreases n,
{
    if n == 0 {
        let p = seq![key];
        assert(p[0] == key);
        p
    } else {
        let hs = s[key].children;
        let f = (n - 1) as nat;
        lemma_depth_within_all(s, hs, f);
        let i = choose|i: int| 0 <= i < hs.len() && !depth_within(s, hs[i].key as int, f);
        assert(is_valid_handle(s, s[key].children[i]));
        let c = hs[i].key as int;
        let q = lemma_deep_path(s, c, f);
        let p = seq![key].add(q);
        assert forall|k: int| 0 <= k < p.len() implies 0 <= #[trigger] p[k] < s.len() by {
            if k > 0 {
                assert(p[k] == q[k - 1]);
            }
        }
        assert forall|k: int| 0 <= k < p.len() - 1 implies #[trigger] path_step(s, p, k) by {
            if k == 0 {
                assert(p[0] == key && p[1] == q[0]);
                assert(s[key].children[i].key == c);
            } else {
                assert(path_step(s, q, k - 1));
                assert(p[k] == q[k - 1] && p[k + 1] == q[k]);
            }
        }
        p
    }
}

/// A chain of more widgets than the store holds meets some widget twice.
proof fn lemma_long_path_repeats(s: Seq<NodeModel>, p: Seq<int>)
    requires
        is_child_path(s, p),
        p.len() > s.len(),
    ensures
        !p.no_duplicates(),
{
    if p.no_duplicates() {
        p.unique_seq_to_set();
        vstd::set_lib::lemma_int_range(0, s.len() as int);
        assert(p.to_set().subset_of(vstd::set_lib::set_int_range(0, s.len() as int))) by {
            assert forall|x: int| p.to_set().contains(x) implies vstd::set_lib::set_int_range(
                0,
                s.len() as int,
            ).contains(x) by {
                let k = choose|k: int| 0 <= k < p.len() && p[k] == x;
                assert(0 <= p[k] < s.len());
            }
        }
        vstd::set_lib::lemma_len_subset(p.to_set(), vstd::set_lib::set_int_range(0, s.len() as int));
    }
}

/// Rendering is defined on every widget below which no chain of children
/// meets a widget twice, in a store whose details each have exactly one
/// metadata child and one content child.
pub proof fn law_acyclic_widget_is_renderable(s: Seq<NodeModel>, key: int)
    requires
        store_wf(s),
        0 <= key < s.len(),
        no_cycle_below(s, key),
        details_well_formed(s),
    ensures
        renderable(s, key, s.len()),
{
    if !depth_within(s, key, s.len()) {
        let p = lemma_deep_path(s, key, s.len());
        lemma_long_path_repeats(s, p);
    }
    law_shallow_widget_is_renderable(s, key, s.len());
}

/// A text part under a heading is drawn at the heading's size.
pub proof fn law_heading_sizes_text(
    s: Seq<NodeModel>,
    key: int,
    context: ComponentRenderContext,
    fuel: nat,
    i: int,
)
    requires
        renderable(s, key, fuel),
        s[key].kind == ComponentWidgetType::H1 || s[key].kind == ComponentWidgetType::H2
            || s[key].kind == ComponentWidgetType::H3 || s[key].kind == ComponentWidgetType::H4
            || s[key].kind == ComponentWidgetType::H5 || s[key].kind == ComponentWidgetType::H6,
        0 <= i < s[key].children.len(),
        0 <= s[key].children[i].key < s.len(),
        s[s[key].children[i].key as int].kind == ComponentWidgetType::TextPart,
    ensures
        spec_render(s, key, context, fuel) matches RenderModel::Row(v) && v[i] matches RenderModel::Text {
            size,
            ..
        } && size == Some::<u16>(
            match s[key].kind {
                ComponentWidgetType::H1 => 34u16,
                ComponentWidgetType::H2 => 30u16,
                ComponentWidgetType::H3 => 24u16,
                ComponentWidgetType::H4 => 20u16,
                ComponentWidgetType::H5 => 18u16,
                _ => 16u16,
            },
        ),
{
    let f = (fuel - 1) as nat;
    let hs = s[key].children;
    crate::render::lemma_renderable_all(s, hs, f);
    assert(renderable(s, hs[i].key as int, f));
    let c = match s[key].kind {
        ComponentWidgetType::H1 => ComponentRenderContext::H1,
        ComponentWidgetType::H2 => ComponentRenderContext::H2,
        ComponentWidgetType::H3 => ComponentRenderContext::H3,
        ComponentWidgetType::H4 => ComponentRenderContext::H4,
        ComponentWidgetType::H5 => ComponentRenderContext::H5,
        _ => ComponentRenderContext::H6,
    };
    lemma_render_all(s, hs, c, f);
}

/// A root shows each of its children once, in order, outside any heading.
pub proof fn law_root_shows_every_child(
    s: Seq<NodeModel>,
    key: int,
    context: ComponentRenderContext,
    fuel: nat,
)
    requires
        0 <= key < s.len(),
        fuel > 0,
        s[key].kind == ComponentWidgetType::Root,
    ensures
        spec_render(s, key, context, fuel) matches RenderModel::Row(v) && v.len() == s[key].children.len()
            && forall|i: int|
            0 <= i < v.len() ==> #[trigger] v[i] == spec_render(
                s,
                s[key].children[i].key as int,
                ComponentRenderContext::Plain,
                (fuel - 1) as nat,
            ),
{
    lemma_render_all(s, s[key].children, ComponentRenderContext::Plain, (fuel - 1) as nat);
}

/// Whether the element is a button whose content is a row.
pub open spec fn is_button_row(r: RenderModel) -> bool {
    r matches RenderModel::Button { content, .. } && *content is Row
}

/// The style of a button.
pub open spec fn button_style(r: RenderModel) -> ButtonStyle {
    r->Button_style
}

/// What a press on a button reports.
pub open spec fn button_event(r: RenderModel) -> EventModel {
    r->Button_on_press
}

/// The elements of the row inside a button.
pub open spec fn button_items(r: RenderModel) -> Seq<RenderModel> {
    (*r->Button_content)->Row_0
}

/// The elements of a row.
pub open spec fn row_items(r: RenderModel) -> Option<Seq<RenderModel>> {
    match r {
        RenderModel::Row(v) => Some(v),
        _ => None,
    }
}

/// The elements of a column.
pub open spec fn column_items(r: RenderModel) -> Option<Seq<RenderModel>> {
    match r {
        RenderModel::Column(v) => Some(v),
        _ => None,
    }
}

/// Whether `v` shows each widget of `hs`, once and in order, as that widget
/// renders under `context` within `fuel` levels.
pub open spec fn shows_each(
    v: Seq<RenderModel>,
    s: Seq<NodeModel>,
    hs: Seq<ComponentWidgetWrapper>,
    context: ComponentRenderContext,
    fuel: nat,
) -> bool {
    &&& v.len() == hs.len()
    &&& forall|i: int| 0 <= i < v.len() ==> #[trigger] v[i] == spec_render(s, hs[i].key as int, context, fuel)
}

/// A tag is a default button that reports a click on the tag's widget, and
/// shows each of the tag's children in a row, outside any heading.
pub proof fn law_tag_shows_its_children(
    s: Seq<NodeModel>,
    key: int,
    context: ComponentRenderContext,
    fuel: nat,
)
    requires
        0 <= key < s.len(),
        fuel > 0,
        s[key].kind == ComponentWidgetType::Tag,
    ensures
        is_button_row(spec_render(s, key, context, fuel)),
        button_style(spec_render(s, key, context, fuel)) == ButtonStyle::Default,
        button_event(spec_render(s, key, context, fuel)) == (EventModel::TagClick {
            widget_id: s[key].id,
            widget_type: "tag"@,
        }),
        shows_each(
            button_items(spec_render(s, key, context, fuel)),
            s,
            s[key].children,
            ComponentRenderContext::Plain,
            (fuel - 1) as nat,
        ),
{
    lemma_render_all(s, s[key].children, ComponentRenderContext::Plain, (fuel - 1) as nat);
}

/// A link is a link button that reports its address, and shows each of the
/// link's children in a row, outside any heading.
pub proof fn law_link_shows_its_children(
    s: Seq<NodeModel>,
    key: int,
    context: ComponentRenderContext,
    fuel: nat,
)
    requires
        0 <= key < s.len(),
        fuel > 0,
        s[key].kind == ComponentWidgetType::Link,
    ensures
        is_button_row(spec_render(s, key, context, fuel)),
        button_style(spec_render(s, key, context, fuel)) == ButtonStyle::Link,
        button_event(spec_render(s, key, context, fuel)) == (EventModel::LinkClick {
            href: s[key].text,
        }),
        shows_each(
            button_items(spec_render(s, key, context, fuel)),
            s,
            s[key].children,
            ComponentRenderContext::Plain,
            (fuel - 1) as nat,
        ),
{
    lemma_render_all(s, s[key].children, ComponentRenderContext::Plain, (fuel - 1) as nat);
}

/// A text shows each of its children in a row, under the heading level that
/// the text itself is rendered under.
pub proof fn law_text_shows_children_in_its_context(
    s: Seq<NodeModel>,
    key: int,
    context: ComponentRenderContext,
    fuel: nat,
)
    requires
        0 <= key < s.len(),
        fuel > 0,
        s[key].kind == ComponentWidgetType::Text,
    ensures
        row_items(spec_render(s, key, context, fuel)) is Some,
        shows_each(
            row_items(spec_render(s, key, context, fuel))->0,
            s,
            s[key].children,
            context,
            (fuel - 1) as nat,
        ),
{
    lemma_render_all(s, s[key].children, context, (fuel - 1) as nat);
}

/// A heading shows each of its children in a row, under its own level,
/// whatever level it is rendered under.
pub proof fn law_heading_shows_children_at_its_level(
    s: Seq<NodeModel>,
    key: int,
    context: ComponentRenderContext,
    fuel: nat,
)
    requires
        0 <= key < s.len(),
        fuel > 0,
        s[key].kind == ComponentWidgetType::H1 || s[key].kind == ComponentWidgetType::H2
            || s[key].kind == ComponentWidgetType::H3 || s[key].kind == ComponentWidgetType::H4
            || s[key].kind == ComponentWidgetType::H5 || s[key].kind == ComponentWidgetType::H6,
    ensures
        row_items(spec_render(s, key, context, fuel)) is Some,
        shows_each(
            row_items(spec_render(s, key, context, fuel))->0,
            s,
            s[key].children,
            match s[key].kind {
                ComponentWidgetType::H1 => ComponentRenderContext::H1,
                ComponentWidgetType::H2 => ComponentRenderContext::H2,
                ComponentWidgetType::H3 => ComponentRenderContext::H3,
                ComponentWidgetType::H4 => ComponentRenderContext::H4,
                ComponentWidgetType::H5 => ComponentRenderContext::H5,
                _ => ComponentRenderContext::H6,
            },
            (fuel - 1) as nat,
        ),
{
    let c = match s[key].kind {
        ComponentWidgetType::H1 => ComponentRenderContext::H1,
        ComponentWidgetType::H2 => ComponentRenderContext::H2,
        ComponentWidgetType::H3 => ComponentRenderContext::H3,
        ComponentWidgetType::H4 => ComponentRenderContext::H4,
        ComponentWidgetType::H5 => ComponentRenderContext::H5,
        _ => ComponentRenderContext::H6,
    };
    lemma_render_all(s, s[key].children, c, (fuel - 1) as nat);
}

/// Metadata and content show each of their children in a column, a
/// metadata item in a row; all of them outside any heading.
pub proof fn law_sections_show_every_child(
    s: Seq<NodeModel>,
    key: int,
    context: ComponentRenderContext,
    fuel: nat,
)
    requires
        0 <= key < s.len(),
        fuel > 0,
        s[key].kind == ComponentWidgetType::Metadata || s[key].kind == ComponentWidgetType::Content
            || s[key].kind == ComponentWidgetType::MetadataItem,
    ensures
        s[key].kind == ComponentWidgetType::MetadataItem ==> row_items(spec_render(s, key, context, fuel)) is Some
            && shows_each(
            row_items(spec_render(s, key, context, fuel))->0,
            s,
            s[key].children,
            ComponentRenderContext::Plain,
            (fuel - 1) as nat,
        ),
        s[key].kind != ComponentWidgetType::MetadataItem ==> column_items(spec_render(s, key, context, fuel)) is Some
            && shows_each(
            column_items(spec_render(s, key, context, fuel))->0,
            s,
            s[key].children,
            ComponentRenderContext::Plain,
            (fuel - 1) as nat,
        ),
{
    lemma_render_all(s, s[key].children, ComponentRenderContext::Plain, (fuel - 1) as nat);
}

/// A text part shows its text, at the size of the heading level it is
/// rendered under, and with no size outside any heading.
pub proof fn law_text_part_shows_its_text(
    s: Seq<NodeModel>,
    key: int,
    context: ComponentRenderContext,
    fuel: nat,
)
    requires
        0 <= key < s.len(),
        fuel > 0,
        s[key].kind == ComponentWidgetType::TextPart,
    ensures
        spec_render(s, key, context, fuel) == (RenderModel::Text {
            text: s[key].text,
            size: match context {
                ComponentRenderContext::Plain => None,
                ComponentRenderContext::H1 => Some(34u16),
                ComponentRenderContext::H2 => Some(30u16),
                ComponentRenderContext::H3 => Some(24u16),
                ComponentRenderContext::H4 => Some(20u16),
                ComponentRenderContext::H5 => Some(18u16),
                ComponentRenderContext::H6 => Some(16u16),
            },
        }),
{
}

/// A separator, an image, a horizontal break, a code block and a code are
/// each shown as their name in plain text, whatever they hold.
pub proof fn law_placeholders_show_their_names(
    s: Seq<NodeModel>,
    key: int,
    context: ComponentRenderContext,
    fuel: nat,
)
    requires
        0 <= key < s.len(),
        fuel > 0,
    ensures
        s[key].kind == ComponentWidgetType::Separator ==> spec_render(s, key, context, fuel)
            == (RenderModel::Text { text: "Separator"@, size: None }),
        s[key].kind == ComponentWidgetType::Image ==> spec_render(s, key, context, fuel)
            == (RenderModel::Text { text: "Image"@, size: None }),
        s[key].kind == ComponentWidgetType::HorizontalBreak ==> spec_render(s, key, context, fuel)
            == (RenderModel::Text { text: "HorizontalBreak"@, size: None }),
        s[key].kind == ComponentWidgetType::CodeBlock ==> spec_render(s, key, context, fuel)
            == (RenderModel::Text { text: "CodeBlock"@, size: None }),
        s[key].kind == ComponentWidgetType::Code ==> spec_render(s, key, context, fuel)
            == (RenderModel::Text { text: "Code"@, size: None }),
{
}

/// The children picked by kind are exactly the children of that kind, in
/// their order.
pub proof fn law_filter_kind_keeps_exactly_that_kind(
    s: Seq<NodeModel>,
    hs: Seq<ComponentWidgetWrapper>,
    kind: ComponentWidgetType,
)
    ensures
        filter_kind(s, hs, kind) == hs.filter(|h: ComponentWidgetWrapper| s[h.key as int].kind == kind),
    decreases hs.len(),
{
    reveal(Seq::filter);
    if hs.len() > 0 {
        law_filter_kind_keeps_exactly_that_kind(s, hs.drop_last(), kind);
    }
}

/// The children that are picked by kind, for a detail, are children of that
/// kind, and at most as many as there are children.
pub proof fn law_filter_kind_picks_children_of_that_kind(
    s: Seq<NodeModel>,
    hs: Seq<ComponentWidgetWrapper>,
    kind: ComponentWidgetType,
)
    ensures
        filter_kind(s, hs, kind).len() <= hs.len(),
        forall|j: int|
            0 <= j < filter_kind(s, hs, kind).len() ==> s[(#[trigger] filter_kind(
                s,
                hs,
                kind,
            )[j]).key as int].kind == kind,
        forall|j: int|
            0 <= j < filter_kind(s, hs, kind).len() ==> hs.contains(
                #[trigger] filter_kind(s, hs, kind)[j],
            ),
    decreases hs.len(),
{
    if hs.len() > 0 {
        let f = filter_kind(s, hs.drop_last(), kind);
        law_filter_kind_picks_children_of_that_kind(s, hs.drop_last(), kind);
        assert forall|j: int| 0 <= j < filter_kind(s, hs, kind).len() implies hs.contains(
            #[trigger] filter_kind(s, hs, kind)[j],
        ) by {
            if j < f.len() {
                let i = choose|i: int| 0 <= i < hs.drop_last().len() && hs.drop_last()[i] == f[j];
                assert(hs[i] == filter_kind(s, hs, kind)[j]);
            } else {
                assert(hs[hs.len() - 1] == filter_kind(s, hs, kind)[j]);
            }
        }
    }
}

/// A detail is drawn as its content beside its metadata.
pub proof fn law_detail_shows_content_then_metadata(
    s: Seq<NodeModel>,
    key: int,
    context: ComponentRenderContext,
    fuel: nat,
)
    requires
        renderable(s, key, fuel),
        s[key].kind == ComponentWidgetType::Detail,
    ensures
        spec_render(s, key, context, fuel) == RenderModel::Row(
            seq![
                spec_render(
                    s,
                    filter_kind(s, s[key].children, ComponentWidgetType::Content)[0].key as int,
                    ComponentRenderContext::Plain,
                    (fuel - 1) as nat,
                ),
                spec_render(
                    s,
                    filter_kind(s, s[key].children, ComponentWidgetType::Metadata)[0].key as int,
                    ComponentRenderContext::Plain,
                    (fuel - 1) as nat,
                ),
            ],
        ),
{
}

/// Only opening a view changes which screen the window shows.
pub proof fn law_only_open_view_changes_screen(model: AppModel, msg: AppMsg)
    requires
        !(msg is OpenView),
    ensures
        spec_update(model, msg).state == model.state,
{
}

/// Only new search results change the search results.
pub proof fn law_only_results_change_results(model: AppModel, msg: AppMsg)
    requires
        !(msg is SetSearchResults),
    ensures
        spec_update(model, msg).search_results == model.search_results,
{
}

/// Opening a view switches to that plugin's view of that entrypoint; new
/// search results replace the list; a changed prompt replaces the prompt;
/// every message changes only that, and every other message changes nothing.
pub proof fn law_what_each_message_changes(model: AppModel, msg: AppMsg)
    ensures
        msg matches AppMsg::OpenView { plugin_uuid, entrypoint_id } ==> spec_update(model, msg)
            == (AppModel {
            state: AppState::PluginView { plugin_id: plugin_uuid, entrypoint_id },
            prompt: model.prompt,
            search_results: model.search_results,
        }),
        msg matches AppMsg::SetSearchResults(results) ==> spec_update(model, msg) == (AppModel {
            state: model.state,
            prompt: model.prompt,
            search_results: results,
        }),
        msg matches AppMsg::PromptChanged(p) ==> spec_update(model, msg) == (AppModel {
            state: model.state,
            prompt: Some(p),
            search_results: model.search_results,
        }),
        (msg is IcedEvent || msg is WidgetEvent || msg is Noop) ==> spec_update(model, msg) == model,
{
}

/// The search screen shows the prompt typed last, or an empty input before
/// any typing, above the search results in their order; a plugin's screen
/// shows that plugin's view.
pub proof fn law_view_shows_the_state(model: AppModel, view: AppView)
    requires
        is_view_of(model, view),
    ensures
        model.state is SearchView && model.prompt is None ==> view is Search
            && view->Search_prompt@.len() == 0,
        model.state is SearchView && model.prompt is Some ==> view is Search
            && view->Search_prompt@ == model.prompt->Some_0@,
        model.state is SearchView ==> view is Search && view->Search_search_results@.len()
            == model.search_results@.len() && forall|i: int|
            0 <= i < model.search_results@.len() ==> #[trigger] view->Search_search_results@[i]
                == model.search_results@[i],
        model.state is PluginView ==> view is Plugin && view->Plugin_plugin_uuid
            == model.state->PluginView_plugin_id,
{
}

/// On the search screen, a changed prompt is what the prompt input shows.
pub proof fn law_prompt_is_shown(model: AppModel, prompt: String, view: AppView)
    requires
        model.state is SearchView,
        is_view_of(spec_update(model, AppMsg::PromptChanged(prompt)), view),
    ensures
        view matches AppView::Search { prompt: shown, .. } && shown@ == prompt@,
{
}

/// On the search screen, new search results are what the list shows.
pub proof fn law_results_are_shown(
    model: AppModel,
    results: Vec<NativeUiSearchResult>,
    view: AppView,
)
    requires
        model.state is SearchView,
        is_view_of(spec_update(model, AppMsg::SetSearchResults(results)), view),
    ensures
        view matches AppView::Search { search_results, .. } && search_results@ == results@,
{
}

/// After a view is opened the window shows that plugin's view.
pub proof fn law_open_view_shows_plugin(
    model: AppModel,
    plugin_uuid: String,
    entrypoint_id: String,
    view: AppView,
)
    requires
        is_view_of(spec_update(model, AppMsg::OpenView { plugin_uuid, entrypoint_id }), view),
    ensures
        view matches AppView::Plugin { plugin_uuid: shown } && shown == plugin_uuid,
{
}

/// Choosing the `i`-th entry of the search screen opens that entry's view:
/// the window then shows the entry's plugin with the entry's entrypoint, and
/// its work is to open the entry's plugin view.
pub proof fn law_chosen_result_opens_its_view(
    model: AppModel,
    view: AppView,
    i: int,
    command: AppCommand,
)
    requires
        model.state is SearchView,
        is_view_of(model, view),
        0 <= i < model.search_results@.len(),
        is_command_for(open_view_msg(view->search_results@[i]), command),
    ensures
        view is Search,
        spec_update(model, open_view_msg(view->search_results@[i])).state == (AppState::PluginView {
            plugin_id: model.search_results@[i].plugin_uuid,
            entrypoint_id: model.search_results@[i].entrypoint_id,
        }),
        command matches AppCommand::OpenView { plugin_uuid, event } && plugin_uuid
            == model.search_results@[i].plugin_uuid && event.view_name
            == model.search_results@[i].entrypoint_id,
{
}

/// A press on a tag of a plugin's view asks the window to send that plugin
/// the click on the tag's widget.
pub proof fn law_tag_click_reaches_its_plugin(
    plugin_uuid: String,
    event: ComponentWidgetEvent,
    command: AppCommand,
)
    requires
        event is TagClick,
        is_command_for(view_event_msg(plugin_uuid, event)->Some_0, command),
    ensures
        view_event_msg(plugin_uuid, event) is Some,
        command matches AppCommand::SendViewEvent { plugin_uuid: p, event_name, widget_id } && p
            == plugin_uuid && event_name@ == "onClick"@ && widget_id == event->widget.widget_id,
{
}

/// Every change of the prompt, the empty one too, asks the server for the
/// search results of exactly that prompt, and the window keeps that prompt.
pub proof fn law_every_prompt_is_searched(model: AppModel, prompt: String, command: AppCommand)
    requires
        is_command_for(AppMsg::PromptChanged(prompt), command),
    ensures
        command == (AppCommand::Search { prompt }),
        spec_update(model, AppMsg::PromptChanged(prompt)).prompt == Some(prompt),
        spec_update(model, AppMsg::PromptChanged(prompt)).state == model.state,
        spec_update(model, AppMsg::PromptChanged(prompt)).search_results == model.search_results,
{
}

/// The first message of a new window asks for the search results of the
/// empty prompt, so that the list fills at once.
pub proof fn law_start_fills_the_list(first: AppMsg, command: AppCommand)
    requires
        first matches AppMsg::PromptChanged(p) && p@.len() == 0,
        is_command_for(first, command),
    ensures
        command matches AppCommand::Search { prompt } && prompt@.len() == 0,
{
}

/// Opening a view asks for the plugin's view container to be made and sent
/// a persistent `view_created` for the entrypoint.
pub proof fn law_open_view_asks_for_the_view(
    plugin_uuid: String,
    entrypoint_id: String,
    command: AppCommand,
)
    requires
        is_command_for(AppMsg::OpenView { plugin_uuid, entrypoint_id }, command),
    ensures
        command is OpenView,
        command->OpenView_plugin_uuid == plugin_uuid,
        command->OpenView_event.view_name == entrypoint_id,
        command->OpenView_event.reconciler_mode@ == "persistent"@,
{
}

/// The up key moves the focus back, the down key forward; other keys and
/// other window events ask for nothing.
pub proof fn law_keys_move_focus(event: UiEvent, command: AppCommand)
    requires
        is_command_for(AppMsg::IcedEvent(event), command),
    ensures
        event == UiEvent::KeyPressed(KeyCode::Up) ==> command is FocusPrevious,
        event == UiEvent::KeyPressed(KeyCode::Down) ==> command is FocusNext,
        event != UiEvent::KeyPressed(KeyCode::Up) && event != UiEvent::KeyPressed(KeyCode::Down)
            ==> command is Idle,
{
}

/// A click on a built-in widget of a plugin's view asks for `onClick` to be
/// sent to that plugin for that widget.
pub proof fn law_widget_click_sends_on_click(
    plugin_uuid: String,
    widget_id: NativeUiWidgetId,
    command: AppCommand,
)
    requires
        is_command_for(
            AppMsg::WidgetEvent {
                plugin_uuid,
                widget_event: BuiltInWidgetEvent::ButtonClick { widget_id },
            },
            command,
        ),
    ensures
        command is SendViewEvent,
        command->SendViewEvent_plugin_uuid == plugin_uuid,
        command->SendViewEvent_event_name@ == "onClick"@,
        command->SendViewEvent_widget_id == widget_id,
{
}

/// New search results and the empty message ask for nothing.
pub proof fn law_results_and_noop_ask_nothing(msg: AppMsg, command: AppCommand)
    requires
        msg is SetSearchResults || msg is Noop,
        is_command_for(msg, command),
    ensures
        command is Idle,
{
}

/// The search entry, if any, that an entrypoint gives: an enabled command
/// gives a command entry and an enabled view a view entry, each with the
/// entrypoint's id, name and icon; nothing else gives one.
pub open spec fn searched_entry(e: DbPluginEntrypoint) -> Option<SearchIndexItem> {
    if e.enabled && e.entrypoint_type == DbPluginEntrypointType::Command {
        Some(
            SearchIndexItem {
                entrypoint_type: SearchResultEntrypointType::Command,
                entrypoint_id: e.id,
                entrypoint_name: e.name,
                entrypoint_icon_path: e.icon_path,
            },
        )
    } else if e.enabled && e.entrypoint_type == DbPluginEntrypointType::View {
        Some(
            SearchIndexItem {
                entrypoint_type: SearchResultEntrypointType::View,
                entrypoint_id: e.id,
                entrypoint_name: e.name,
                entrypoint_icon_path: e.icon_path,
            },
        )
    } else {
        None
    }
}

/// The search entries of the entrypoints are, in the entrypoints' order, one
/// for each enabled command or view, with its id, name and icon; disabled
/// entrypoints, command generators and inline views give none.
pub proof fn law_entrypoint_items_are_enabled_commands_and_views(es: Seq<DbPluginEntrypoint>)
    ensures
        spec_entrypoint_items(es) == es.filter_map(|e: DbPluginEntrypoint| searched_entry(e)),
    decreases es.len(),
{
    if es.len() > 0 {
        law_entrypoint_items_are_enabled_commands_and_views(es.drop_last());
        let f = |e: DbPluginEntrypoint| searched_entry(e);
        let rest = es.drop_last().filter_map(f);
        match f(es.last()) {
            Some(x) => {
                assert(rest.push(x) =~= rest + seq![x]);
            },
            None => {},
        }
    }
}

/// The server hands over one result for each result of the search index, in
/// order, each with the same entrypoint name and id and plugin name and id.
pub proof fn law_search_results_pass_through(
    items: Seq<SearchIndexResult>,
    handed_over: Seq<DBusSearchResult>,
)
    requires
        handed_over == items.map_values(|item: SearchIndexResult| spec_dbus_result(item)),
    ensures
        handed_over.len() == items.len(),
        forall|i: int|
            0 <= i < items.len() ==> {
                &&& (#[trigger] handed_over[i]).entrypoint_name == items[i].entrypoint_name
                &&& handed_over[i].entrypoint_id == items[i].entrypoint_id
                &&& handed_over[i].plugin_name == items[i].plugin_name
                &&& handed_over[i].plugin_id == items[i].plugin_id
            },
{
}

/// The search entries of the entrypoints come from searchable entrypoints
/// only, and every searchable entrypoint gives one.
pub proof fn law_entrypoint_items_are_the_searchable_ones(es: Seq<DbPluginEntrypoint>)
    ensures
        spec_entrypoint_items(es).len() <= es.len(),
        forall|k: int|
            0 <= k < spec_entrypoint_items(es).len() ==> exists|j: int|
                0 <= j < es.len() && es[j].enabled && is_searchable(es[j]) && #[trigger] spec_entrypoint_items(es)[k]
                    == spec_entrypoint_item(es[j]),
        forall|j: int|
            0 <= j < es.len() && #[trigger] is_searchable(es[j]) ==> exists|k: int|
                0 <= k < spec_entrypoint_items(es).len() && spec_entrypoint_items(es)[k]
                    == spec_entrypoint_item(es[j]),
    decreases es.len(),
{
    if es.len() > 0 {
        let prev = es.drop_last();
        law_entrypoint_items_are_the_searchable_ones(prev);
        let items = spec_entrypoint_items(es);
        let prev_items = spec_entrypoint_items(prev);
        assert forall|k: int| 0 <= k < items.len() implies exists|j: int|
            0 <= j < es.len() && es[j].enabled && is_searchable(es[j]) && #[trigger] items[k]
                == spec_entrypoint_item(es[j]) by {
            if k < prev_items.len() {
                let j = choose|j: int|
                    0 <= j < prev.len() && is_searchable(prev[j]) && prev_items[k]
                        == spec_entrypoint_item(prev[j]);
                assert(es[j] == prev[j]);
            } else {
                assert(es[es.len() - 1] == es.last());
            }
        }
        assert forall|j: int| 0 <= j < es.len() && #[trigger] is_searchable(es[j]) implies exists|
            k: int,
        | 0 <= k < items.len() && items[k] == spec_entrypoint_item(es[j]) by {
            if j < es.len() - 1 {
                assert(prev[j] == es[j]);
                assert(is_searchable(prev[j]));
                let k = choose|k: int|
                    0 <= k < prev_items.len() && prev_items[k] == spec_entrypoint_item(prev[j]);
                assert(items[k] == prev_items[k]);
            } else {
                assert(items[items.len() - 1] == spec_entrypoint_item(es[j]));
            }
        }
    }
}

/// The search entries of a plugin are its generated commands, in order, each
/// with the command's id, name and icon, then the entries of its entrypoints,
/// in order, which are commands and views only.
pub proof fn law_plugin_items_order(
    generated: Seq<GeneratedSearchItem>,
    entrypoints: Seq<DbPluginEntrypoint>,
)
    ensures
        spec_plugin_items(generated, entrypoints).len() == generated.len() + spec_entrypoint_items(
            entrypoints,
        ).len(),
        forall|i: int|
            0 <= i < generated.len() ==> (#[trigger] spec_plugin_items(generated, entrypoints)[i])
                == (SearchIndexItem {
                entrypoint_type: SearchResultEntrypointType::GeneratedCommand,
                entrypoint_id: generated[i].entrypoint_id,
                entrypoint_name: generated[i].entrypoint_name,
                entrypoint_icon_path: generated[i].entrypoint_icon_path,
            }),
        forall|k: int|
            0 <= k < spec_entrypoint_items(entrypoints).len() ==> spec_plugin_items(
                generated,
                entrypoints,
            )[generated.len() + k] == #[trigger] spec_entrypoint_items(entrypoints)[k],
        forall|i: int|
            generated.len() <= i < spec_plugin_items(generated, entrypoints).len() ==> ((#[trigger] spec_plugin_items(
                generated,
                entrypoints,
            )[i]).entrypoint_type == SearchResultEntrypointType::Command || spec_plugin_items(
                generated,
                entrypoints,
            )[i].entrypoint_type == SearchResultEntrypointType::View),
{
    law_entrypoint_items_are_the_searchable_ones(entrypoints);
    let items = spec_plugin_items(generated, entrypoints);
    let ep_items = spec_entrypoint_items(entrypoints);
    assert forall|i: int| generated.len() <= i < items.len() implies ((#[trigger] items[i]).entrypoint_type
        == SearchResultEntrypointType::Command || items[i].entrypoint_type
        == SearchResultEntrypointType::View) by {
        let k = i - generated.len();
        assert(items[i] == ep_items[k]);
        let j = choose|j: int|
            0 <= j < entrypoints.len() && is_searchable(entrypoints[j]) && ep_items[k]
                == spec_entrypoint_item(entrypoints[j]);
    }
}

} // verus!
