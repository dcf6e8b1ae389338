use vstd::prelude::*;

verus! {

/// A result of a search in the search index.
#[derive(Debug)]
pub struct SearchIndexResult {
    pub entrypoint_name: String,
    pub entrypoint_id: String,
    pub plugin_name: String,
    pub plugin_id: String,
}

/// A search result as the server hands it to the client.
#[derive(Debug)]
pub struct DBusSearchResult {
    pub entrypoint_name: String,
    pub entrypoint_id: String,
    pub plugin_name: String,
    pub plugin_id: String,
}

/// The result that the server hands over for a result of the search index.
pub open spec fn spec_dbus_result(item: SearchIndexResult) -> DBusSearchResult {
    DBusSearchResult {
        entrypoint_name: item.entrypoint_name,
        entrypoint_id: item.entrypoint_id,
        plugin_name: item.plugin_name,
        plugin_id: item.plugin_id,
    }
}

/// The results that the server hands over for the results of a search, one
/// for one and in order.
pub fn search_results_to_dbus(items: Vec<SearchIndexResult>) -> (r: Vec<DBusSearchResult>)
    ensures
        r@ == items@.map_values(|item: SearchIndexResult| spec_dbus_result(item)),
{
    let mut r: Vec<DBusSearchResult> = Vec::new();
    let mut i: usize = 0;
    while i < items.len()
        invariant
            i <= items.len(),
            r@.len() == i,
            forall|j: int| 0 <= j < i ==> #[trigger] r@[j] == spec_dbus_result(items@[j]),
        decreases items.len() - i,
    {
        let item = &items[i];
        r.push(
            DBusSearchResult {
                entrypoint_name: item.entrypoint_name.clone(),
                entrypoint_id: item.entrypoint_id.clone(),
                plugin_name: item.plugin_name.clone(),
                plugin_id: item.plugin_id.clone(),
            },
        );
        i = i + 1;
    }
    assert(r@ =~= items@.map_values(|item: SearchIndexResult| spec_dbus_result(item)));
    r
}

} // verus!
