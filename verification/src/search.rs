use vstd::prelude::*;

verus! {

/// The kind of entry that a search result opens.
#[derive(PartialEq, Eq, Structural, Clone, Copy, Debug)]
pub enum SearchResultEntrypointType {
    Command,
    View,
    GeneratedCommand,
}

/// The kind of an entrypoint, as the plugin database stores it.
#[derive(PartialEq, Eq, Structural, Clone, Copy, Debug)]
pub enum DbPluginEntrypointType {
    Command,
    View,
    CommandGenerator,
    InlineView,
}

/// A command that a command generator of the plugin produced.
///
/// `entrypoint_icon_path` is where its icon was saved, if it has one.
#[derive(Debug)]
pub struct GeneratedSearchItem {
    pub entrypoint_name: String,
    pub entrypoint_id: String,
    pub entrypoint_icon_path: Option<String>,
}

/// An entrypoint of the plugin, as the plugin database stores it.
///
/// `icon_path` is where its icon was saved, if it has one.
#[derive(Debug)]
pub struct DbPluginEntrypoint {
    pub id: String,
    pub name: String,
    pub enabled: bool,
    pub entrypoint_type: DbPluginEntrypointType,
    pub icon_path: Option<String>,
}

/// An entry of the search index.
#[derive(Debug)]
pub struct SearchIndexItem {
    pub entrypoint_type: SearchResultEntrypointType,
    pub entrypoint_id: String,
    pub entrypoint_name: String,
    pub entrypoint_icon_path: Option<String>,
}

/// The kind of search result that an entrypoint of each kind gives, if any:
/// command generators and inline views are not searched for.
pub open spec fn spec_search_result_type(t: DbPluginEntrypointType) -> Option<
    SearchResultEntrypointType,
> {
    match t {
        DbPluginEntrypointType::Command => Some(SearchResultEntrypointType::Command),
        DbPluginEntrypointType::View => Some(SearchResultEntrypointType::View),
        DbPluginEntrypointType::CommandGenerator => None,
        DbPluginEntrypointType::InlineView => None,
    }
}

/// Whether an entrypoint gives a search entry: it is enabled, and of a kind
/// that is searched for.
pub open spec fn is_searchable(e: DbPluginEntrypoint) -> bool {
    e.enabled && spec_search_result_type(e.entrypoint_type) is Some
}

/// The search entry of a generated command.
pub open spec fn spec_generated_item(g: GeneratedSearchItem) -> SearchIndexItem {
    SearchIndexItem {
        entrypoint_type: SearchResultEntrypointType::GeneratedCommand,
        entrypoint_id: g.entrypoint_id,
        entrypoint_name: g.entrypoint_name,
        entrypoint_icon_path: g.entrypoint_icon_path,
    }
}

/// The search entry of a searchable entrypoint.
pub open spec fn spec_entrypoint_item(e: DbPluginEntrypoint) -> SearchIndexItem {
    SearchIndexItem {
        entrypoint_type: spec_search_result_type(e.entrypoint_type)->0,
        entrypoint_id: e.id,
        entrypoint_name: e.name,
        entrypoint_icon_path: e.icon_path,
    }
}

/// The search entries of the entrypoints, in order.
pub open spec fn spec_entrypoint_items(es: Seq<DbPluginEntrypoint>) -> Seq<SearchIndexItem>
    decreases es.len(),
{
    if es.len() == 0 {
        Seq::empty()
    } else if is_searchable(es.last()) {
        spec_entrypoint_items(es.drop_last()).push(spec_entrypoint_item(es.last()))
    } else {
        spec_entrypoint_items(es.drop_last())
    }
}

/// The search entries of a plugin: its generated commands, then its
/// searchable entrypoints.
pub open spec fn spec_plugin_items(
    generated: Seq<GeneratedSearchItem>,
    entrypoints: Seq<DbPluginEntrypoint>,
) -> Seq<SearchIndexItem> {
    generated.map_values(|g: GeneratedSearchItem| spec_generated_item(g)) + spec_entrypoint_items(
        entrypoints,
    )
}

/// The kind of search result that an entrypoint of kind `t` gives, if any.
pub fn search_result_type(t: DbPluginEntrypointType) -> (r: Option<SearchResultEntrypointType>)
    ensures
        r == spec_search_result_type(t),
{
    match t {
        DbPluginEntrypointType::Command => Some(SearchResultEntrypointType::Command),
        DbPluginEntrypointType::View => Some(SearchResultEntrypointType::View),
        DbPluginEntrypointType::CommandGenerator | DbPluginEntrypointType::InlineView => None,
    }
}

fn clone_option_string(s: &Option<String>) -> (r: Option<String>)
    ensures
        r == *s,
{
    match s {
        Some(s) => Some(s.clone()),
        None => None,
    }
}

/// The search entries of the plugin's generated commands, in order.
pub fn generated_search_items(generated: &Vec<GeneratedSearchItem>) -> (r: Vec<SearchIndexItem>)
    ensures
        r@ == generated@.map_values(|g: GeneratedSearchItem| spec_generated_item(g)),
{
    let mut r: Vec<SearchIndexItem> = Vec::new();
    let mut i: usize = 0;
    while i < generated.len()
        invariant
            i <= generated.len(),
            r@.len() == i,
            forall|j: int| 0 <= j < i ==> #[trigger] r@[j] == spec_generated_item(generated@[j]),
        decreases generated.len() - i,
    {
        let g = &generated[i];
        r.push(
            SearchIndexItem {
                entrypoint_type: SearchResultEntrypointType::GeneratedCommand,
                entrypoint_id: g.entrypoint_id.clone(),
                entrypoint_name: g.entrypoint_name.clone(),
                entrypoint_icon_path: clone_option_string(&g.entrypoint_icon_path),
            },
        );
        i = i + 1;
    }
    assert(r@ =~= generated@.map_values(|g: GeneratedSearchItem| spec_generated_item(g)));
    r
}

/// The search entries of the enabled commands and views among the
/// entrypoints, in order.
pub fn entrypoint_search_items(entrypoints: &Vec<DbPluginEntrypoint>) -> (r: Vec<SearchIndexItem>)
    ensures
        r@ == spec_entrypoint_items(entrypoints@),
{
    let mut r: Vec<SearchIndexItem> = Vec::new();
    let mut i: usize = 0;
    assert(entrypoints@.take(0) =~= Seq::<DbPluginEntrypoint>::empty());
    while i < entrypoints.len()
        invariant
            i <= entrypoints.len(),
            r@ == spec_entrypoint_items(entrypoints@.take(i as int)),
        decreases entrypoints.len() - i,
    {
        let e = &entrypoints[i];
        assert(entrypoints@.take(i + 1).drop_last() =~= entrypoints@.take(i as int));
        if e.enabled {
            match search_result_type(e.entrypoint_type) {
                Some(entrypoint_type) => {
                    r.push(
                        SearchIndexItem {
                            entrypoint_type,
                            entrypoint_id: e.id.clone(),
                            entrypoint_name: e.name.clone(),
                            entrypoint_icon_path: clone_option_string(&e.icon_path),
                        },
                    );
                },
                None => {},
            }
        }
        i = i + 1;
    }
    assert(entrypoints@.take(entrypoints.len() as int) =~= entrypoints@);
    r
}

/// The search entries of a plugin: its generated commands first, then its
/// enabled commands and views.
pub fn plugin_search_items(
    generated: &Vec<GeneratedSearchItem>,
    entrypoints: &Vec<DbPluginEntrypoint>,
) -> (r: Vec<SearchIndexItem>)
    ensures
        r@ == spec_plugin_items(generated@, entrypoints@),
{
    let mut plugins_search_items = generated_search_items(generated);
    let mut builtin_search_items = entrypoint_search_items(entrypoints);
    plugins_search_items.append(&mut builtin_search_items);
    plugins_search_items
}

} // verus!
