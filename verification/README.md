# placeholdername

The widget tree, rendering decisions, search-entry selection and window
state machine of a launcher whose plugins draw their views through D-Bus.

- `src/` is the verified library:
  - `widget.rs` — the widgets of a view, held in a `WidgetStore` and
    reached through handles (`ComponentWidgetWrapper`) that all copies share;
    the store's model (`Seq<NodeModel>`), creation by type name, and reading,
    replacing and adding children;
  - `render.rs` — what each widget renders to (`RenderedElement`, modelled
    by `RenderModel`), under which heading level, and when rendering is
    defined (no cycle, well-formed details);
  - `event.rs` — the view event that a press on a tag raises;
  - `native_ui.rs` — the state of the launcher window, what each message does
    to it, what it asks the shell to do, what the window shows and which
    message each of its controls sends;
  - `search.rs` — which entrypoints of a plugin become search entries;
  - `dbus.rs` — search results as the server hands them out;
  - `laws.rs` — properties that relate several operations.
- `tests/` runs the library on concrete values.
- `app/` is the shell: iced drawing, the per-plugin widget stores, the D-Bus
  interfaces, the plugin database reads and the icon cache.
