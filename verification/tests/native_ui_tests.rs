use placeholdername::native_ui::{
    open_view_message, prompt_changed_message, view_event_message, AppCommand, AppModel, AppMsg,
    AppState, AppView, BuiltInWidgetEvent, KeyCode, NativeUiSearchResult, UiEvent,
};
use placeholdername::render::ComponentWidgetEvent;
use placeholdername::widget::NativeUiWidget;

fn result(name: &str) -> NativeUiSearchResult {
    NativeUiSearchResult {
        plugin_uuid: "plugin".to_string(),
        plugin_name: "Plugin".to_string(),
        entrypoint_id: format!("{}-id", name),
        entrypoint_name: name.to_string(),
    }
}

fn search_view(model: &AppModel) -> (String, Vec<String>) {
    match model.view() {
        AppView::Search { prompt, search_results } => {
            (prompt, search_results.into_iter().map(|r| r.entrypoint_name).collect())
        }
        AppView::Plugin { .. } => panic!("expected the search screen"),
    }
}

#[test]
fn starts_on_search_screen_with_empty_prompt() {
    let (model, first) = AppModel::new();
    assert!(matches!(model.state, AppState::SearchView));
    assert_eq!(search_view(&model), (String::new(), vec![]));
    assert!(matches!(first, AppMsg::PromptChanged(p) if p.is_empty()));
    assert_eq!(model.title(), "test");
}

#[test]
fn prompt_change_searches_and_is_shown() {
    let (mut model, _) = AppModel::new();
    let command = model.update(AppMsg::PromptChanged("fire".to_string()));
    assert!(matches!(command, AppCommand::Search { prompt } if prompt == "fire"));
    assert_eq!(search_view(&model).0, "fire");
}

#[test]
fn search_results_are_listed() {
    let (mut model, _) = AppModel::new();
    let command = model.update(AppMsg::SetSearchResults(vec![result("a"), result("b")]));
    assert!(matches!(command, AppCommand::Idle));
    assert_eq!(search_view(&model).1, vec!["a".to_string(), "b".to_string()]);
}

#[test]
fn open_view_switches_to_plugin_screen() {
    let (mut model, _) = AppModel::new();
    let command = model.update(AppMsg::OpenView {
        plugin_uuid: "uuid-1".to_string(),
        entrypoint_id: "main".to_string(),
    });
    match command {
        AppCommand::OpenView { plugin_uuid, event } => {
            assert_eq!(plugin_uuid, "uuid-1");
            assert_eq!(event.reconciler_mode, "persistent");
            assert_eq!(event.view_name, "main");
        }
        _ => panic!("expected an open view command"),
    }
    assert!(matches!(&model.state, AppState::PluginView { plugin_id, entrypoint_id }
        if plugin_id == "uuid-1" && entrypoint_id == "main"));
    assert!(matches!(model.view(), AppView::Plugin { plugin_uuid } if plugin_uuid == "uuid-1"));
}

#[test]
fn keys_move_focus() {
    let (mut model, _) = AppModel::new();
    assert!(matches!(model.update(AppMsg::IcedEvent(UiEvent::KeyPressed(KeyCode::Up))), AppCommand::FocusPrevious));
    assert!(matches!(model.update(AppMsg::IcedEvent(UiEvent::KeyPressed(KeyCode::Down))), AppCommand::FocusNext));
    assert!(matches!(model.update(AppMsg::IcedEvent(UiEvent::KeyPressed(KeyCode::Other))), AppCommand::Idle));
    assert!(matches!(model.update(AppMsg::IcedEvent(UiEvent::Other)), AppCommand::Idle));
    assert!(matches!(model.state, AppState::SearchView));
}

#[test]
fn button_click_sends_on_click() {
    let (mut model, _) = AppModel::new();
    let command = model.update(AppMsg::WidgetEvent {
        plugin_uuid: "uuid-2".to_string(),
        widget_event: BuiltInWidgetEvent::ButtonClick { widget_id: 17 },
    });
    match command {
        AppCommand::SendViewEvent { plugin_uuid, event_name, widget_id } => {
            assert_eq!(plugin_uuid, "uuid-2");
            assert_eq!(event_name, "onClick");
            assert_eq!(widget_id, 17);
        }
        _ => panic!("expected a view event"),
    }
}

#[test]
fn other_messages_keep_screen_and_results() {
    let (mut model, _) = AppModel::new();
    model.update(AppMsg::SetSearchResults(vec![result("x")]));
    model.update(AppMsg::PromptChanged("p".to_string()));
    assert!(matches!(model.update(AppMsg::Noop), AppCommand::Idle));
    assert_eq!(search_view(&model), ("p".to_string(), vec!["x".to_string()]));
}

#[test]
fn typing_sends_prompt_changed() {
    let message = prompt_changed_message("fire".to_string());
    assert!(matches!(message, AppMsg::PromptChanged(p) if p == "fire"));
}

#[test]
fn choosing_a_result_opens_its_entrypoint() {
    let mut model = AppModel::new().0;
    model.update(AppMsg::SetSearchResults(vec![result("first"), result("second")]));
    let chosen = match model.view() {
        AppView::Search { search_results, .. } => search_results[1].clone(),
        AppView::Plugin { .. } => panic!("expected the search screen"),
    };
    let message = open_view_message(&chosen);
    assert!(matches!(
        &message,
        AppMsg::OpenView { plugin_uuid, entrypoint_id }
            if plugin_uuid == "plugin" && entrypoint_id == "second-id"
    ));
    let command = model.update(message);
    assert!(matches!(
        &model.state,
        AppState::PluginView { plugin_id, entrypoint_id } if plugin_id == "plugin" && entrypoint_id == "second-id"
    ));
    assert!(matches!(command, AppCommand::OpenView { plugin_uuid, event }
        if plugin_uuid == "plugin" && event.view_name == "second-id" && event.reconciler_mode == "persistent"));
}

#[test]
fn tag_click_in_plugin_view_becomes_widget_event() {
    let event = ComponentWidgetEvent::TagClick {
        widget: NativeUiWidget { widget_id: 7, widget_type: "tag".to_string() },
    };
    let message = view_event_message("plugin".to_string(), event).unwrap();
    assert!(matches!(
        &message,
        AppMsg::WidgetEvent { plugin_uuid, widget_event: BuiltInWidgetEvent::ButtonClick { widget_id: 7 } }
            if plugin_uuid == "plugin"
    ));
    let mut model = AppModel::new().0;
    let command = model.update(message);
    assert!(matches!(command, AppCommand::SendViewEvent { plugin_uuid, event_name, widget_id: 7 }
        if plugin_uuid == "plugin" && event_name == "onClick"));
}

#[test]
fn link_click_in_plugin_view_sends_nothing() {
    let event = ComponentWidgetEvent::LinkClick { href: "https://example.com".to_string() };
    assert!(view_event_message("plugin".to_string(), event).is_none());
}
