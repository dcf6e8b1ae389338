use vstd::prelude::*;

use crate::render::ComponentWidgetEvent;
use crate::widget::NativeUiWidgetId;

verus! {

/// One entry of the search results list.
#[derive(Debug)]
pub struct NativeUiSearchResult {
    pub plugin_uuid: String,
    pub plugin_name: String,
    pub entrypoint_id: String,
    pub entrypoint_name: String,
}

impl Clone for NativeUiSearchResult {
    fn clone(&self) -> (r: Self)
        ensures
            r == *self,
    {
        NativeUiSearchResult {
            plugin_uuid: self.plugin_uuid.clone(),
            plugin_name: self.plugin_name.clone(),
            entrypoint_id: self.entrypoint_id.clone(),
            entrypoint_name: self.entrypoint_name.clone(),
        }
    }
}

/// Which screen the launcher window shows.
pub enum AppState {
    SearchView,
    PluginView { plugin_id: String, entrypoint_id: String },
}

/// A key of the keyboard, as far as the launcher tells keys apart.
#[derive(PartialEq, Eq, Structural, Clone, Copy, Debug)]
pub enum KeyCode {
    Up,
    Down,
    Other,
}

/// An event of the window system.
#[derive(PartialEq, Eq, Structural, Clone, Copy, Debug)]
pub enum UiEvent {
    KeyPressed(KeyCode),
    Other,
}

/// An event raised by a built-in widget of a plugin view.
#[derive(PartialEq, Eq, Structural, Clone, Copy, Debug)]
pub enum BuiltInWidgetEvent {
    ButtonClick { widget_id: NativeUiWidgetId },
}

/// A message handled by the launcher window.
#[derive(Debug)]
pub enum AppMsg {
    OpenView { plugin_uuid: String, entrypoint_id: String },
    PromptChanged(String),
    SetSearchResults(Vec<NativeUiSearchResult>),
    IcedEvent(UiEvent),
    WidgetEvent { plugin_uuid: String, widget_event: BuiltInWidgetEvent },
    Noop,
}

/// The signal that a view was opened.
#[derive(Debug)]
pub struct DbusEventViewCreated {
    pub reconciler_mode: String,
    pub view_name: String,
}

/// The work that the window has to do after a message.
#[derive(Debug)]
pub enum AppCommand {
    /// Nothing to do.
    Idle,
    /// Create the view container of the plugin, then send it `view_created`.
    OpenView { plugin_uuid: String, event: DbusEventViewCreated },
    /// Ask the server for the search results of `prompt`.
    Search { prompt: String },
    FocusPrevious,
    FocusNext,
    /// Send the plugin the view event `event_name` on the widget `widget_id`.
    SendViewEvent { plugin_uuid: String, event_name: String, widget_id: NativeUiWidgetId },
}

/// What the window draws.
pub enum AppView {
    /// The prompt input, holding `prompt`, above the list of search results.
    Search { prompt: String, search_results: Vec<NativeUiSearchResult> },
    /// The view container of the plugin.
    Plugin { plugin_uuid: String },
}

/// The state of the launcher window.
pub struct AppModel {
    pub state: AppState,
    pub prompt: Option<String>,
    pub search_results: Vec<NativeUiSearchResult>,
}

/// The state of the window after `msg`.
pub open spec fn spec_update(model: AppModel, msg: AppMsg) -> AppModel {
    match msg {
        AppMsg::OpenView { plugin_uuid, entrypoint_id } => AppModel {
            state: AppState::PluginView { plugin_id: plugin_uuid, entrypoint_id },
            ..model
        },
        AppMsg::PromptChanged(prompt) => AppModel { prompt: Some(prompt), ..model },
        AppMsg::SetSearchResults(search_results) => AppModel { search_results, ..model },
        _ => model,
    }
}

/// Whether `command` is the work that `msg` asks for.
pub open spec fn is_command_for(msg: AppMsg, command: AppCommand) -> bool {
    match msg {
        AppMsg::OpenView { plugin_uuid, entrypoint_id } => command matches AppCommand::OpenView {
            plugin_uuid: u,
            event,
        } && u == plugin_uuid && event.reconciler_mode@ == "persistent"@ && event.view_name
            == entrypoint_id,
        AppMsg::PromptChanged(prompt) => command == AppCommand::Search { prompt },
        AppMsg::IcedEvent(UiEvent::KeyPressed(KeyCode::Up)) => command is FocusPrevious,
        AppMsg::IcedEvent(UiEvent::KeyPressed(KeyCode::Down)) => command is FocusNext,
        AppMsg::WidgetEvent {
            plugin_uuid,
            widget_event: BuiltInWidgetEvent::ButtonClick { widget_id },
        } => command matches AppCommand::SendViewEvent { plugin_uuid: u, event_name, widget_id: w }
            && u == plugin_uuid && event_name@ == "onClick"@ && w == widget_id,
        _ => command is Idle,
    }
}

/// Whether `view` is what the window draws in state `model`: the search
/// screen shows the prompt, or nothing while no prompt was typed, and the
/// search results.
pub open spec fn is_view_of(model: AppModel, view: AppView) -> bool {
    match model.state {
        AppState::SearchView => view matches AppView::Search { prompt, search_results } && prompt@
            == match model.prompt {
            Some(p) => p@,
            None => Seq::<char>::empty(),
        } && search_results@ == model.search_results@,
        AppState::PluginView { plugin_id, .. } => view matches AppView::Plugin { plugin_uuid }
            && plugin_uuid == plugin_id,
    }
}

impl AppModel {
    /// The window in its first state, and the message that it handles first:
    /// an empty prompt, so that the search list fills at once.
    pub fn new() -> (r: (AppModel, AppMsg))
        ensures
            r.0.state is SearchView,
            r.0.prompt is None,
            r.0.search_results@.len() == 0,
            r.1 matches AppMsg::PromptChanged(p) && p@.len() == 0,
    {
        (
            AppModel { state: AppState::SearchView, prompt: None, search_results: Vec::new() },
            AppMsg::PromptChanged(String::new()),
        )
    }

    /// The title of the window.
    pub fn title(&self) -> (r: String)
        ensures
            r@ == "test"@,
    {
        "test".to_owned()
    }

    /// Handles `msg`, and says what the window has to do next.
    pub fn update(&mut self, msg: AppMsg) -> (r: AppCommand)
        ensures
            *final(self) == spec_update(*old(self), msg),
            is_command_for(msg, r),
    {
        match msg {
            AppMsg::OpenView { plugin_uuid, entrypoint_id } => {
                self.state = AppState::PluginView {
                    plugin_id: plugin_uuid.clone(),
                    entrypoint_id: entrypoint_id.clone(),
                };
                AppCommand::OpenView {
                    plugin_uuid,
                    event: DbusEventViewCreated {
                        reconciler_mode: "persistent".to_owned(),
                        view_name: entrypoint_id,
                    },
                }
            },
            AppMsg::PromptChanged(prompt) => {
                self.prompt = Some(prompt.clone());
                AppCommand::Search { prompt }
            },
            AppMsg::SetSearchResults(search_results) => {
                self.search_results = search_results;
                AppCommand::Idle
            },
            AppMsg::IcedEvent(UiEvent::KeyPressed(KeyCode::Up)) => AppCommand::FocusPrevious,
            AppMsg::IcedEvent(UiEvent::KeyPressed(KeyCode::Down)) => AppCommand::FocusNext,
            AppMsg::IcedEvent(_) => AppCommand::Idle,
            AppMsg::WidgetEvent {
                plugin_uuid,
                widget_event: BuiltInWidgetEvent::ButtonClick { widget_id },
            } => AppCommand::SendViewEvent {
                plugin_uuid,
                event_name: "onClick".to_owned(),
                widget_id,
            },
            AppMsg::Noop => AppCommand::Idle,
        }
    }

    /// What the window draws.
    pub fn view(&self) -> (r: AppView)
        ensures
            is_view_of(*self, r),
    {
        match &self.state {
            AppState::SearchView => {
                let prompt = match &self.prompt {
                    Some(p) => p.clone(),
                    None => String::new(),
                };
                let search_results = self.search_results.clone();
                assert(search_results@ =~= self.search_results@);
                AppView::Search { prompt, search_results }
            },
            AppState::PluginView { plugin_id, .. } => AppView::Plugin { plugin_uuid: plugin_id.clone() },
        }
    }
}

/// The message that choosing the search result `result` sends.
pub open spec fn open_view_msg(result: NativeUiSearchResult) -> AppMsg {
    AppMsg::OpenView { plugin_uuid: result.plugin_uuid, entrypoint_id: result.entrypoint_id }
}

/// The message that a press on a widget of the view of `plugin_uuid` sends,
/// if any.
pub open spec fn view_event_msg(plugin_uuid: String, event: ComponentWidgetEvent) -> Option<AppMsg> {
    match event {
        ComponentWidgetEvent::TagClick { widget } => Some(
            AppMsg::WidgetEvent {
                plugin_uuid,
                widget_event: BuiltInWidgetEvent::ButtonClick { widget_id: widget.widget_id },
            },
        ),
        ComponentWidgetEvent::LinkClick { .. } => None,
    }
}

/// The message that typing `text` into the prompt input sends.
pub fn prompt_changed_message(text: String) -> (m: AppMsg)
    ensures
        m == AppMsg::PromptChanged(text),
{
    AppMsg::PromptChanged(text)
}

/// The message that choosing a search result sends: open that result's view.
pub fn open_view_message(result: &NativeUiSearchResult) -> (m: AppMsg)
    ensures
        m == open_view_msg(*result),
        m == (AppMsg::OpenView {
            plugin_uuid: result.plugin_uuid,
            entrypoint_id: result.entrypoint_id,
        }),
{
    AppMsg::OpenView {
        plugin_uuid: result.plugin_uuid.clone(),
        entrypoint_id: result.entrypoint_id.clone(),
    }
}

/// The message that an event of a built-in widget of a plugin's view sends.
pub fn widget_event_message(plugin_uuid: String, widget_event: BuiltInWidgetEvent) -> (m: AppMsg)
    ensures
        m == (AppMsg::WidgetEvent { plugin_uuid, widget_event }),
{
    AppMsg::WidgetEvent { plugin_uuid, widget_event }
}

/// The message that a press on a widget of a plugin's view sends: a press on
/// a tag is a button click on the tag's widget; a press on a link sends none,
/// as opening links is not supported.
pub fn view_event_message(plugin_uuid: String, event: ComponentWidgetEvent) -> (m: Option<AppMsg>)
    ensures
        m == view_event_msg(plugin_uuid, event),
        match event {
            ComponentWidgetEvent::TagClick { widget } => m == Some(
                AppMsg::WidgetEvent {
                    plugin_uuid,
                    widget_event: BuiltInWidgetEvent::ButtonClick { widget_id: widget.widget_id },
                },
            ),
            ComponentWidgetEvent::LinkClick { .. } => m is None,
        },
{
    match event {
        ComponentWidgetEvent::TagClick { widget } => Some(
            widget_event_message(
                plugin_uuid,
                BuiltInWidgetEvent::ButtonClick { widget_id: widget.widget_id },
            ),
        ),
        ComponentWidgetEvent::LinkClick { .. } => None,
    }
}

} // verus!
