use vstd::prelude::*;

use crate::render::ComponentWidgetEvent;
use crate::widget::{NativeUiWidget, NativeUiWidgetId};

verus! {

/// A widget as the plugin side knows it.
#[derive(Debug)]
pub struct DbusUiWidget {
    pub widget_id: NativeUiWidgetId,
    pub widget_type: String,
}

/// An event that the user raised on a widget of a view.
#[derive(Debug)]
pub struct DbusEventViewEvent {
    pub event_name: String,
    pub widget: DbusUiWidget,
}

impl DbusUiWidget {
    /// The plugin side's description of a widget.
    pub fn from_native(widget: NativeUiWidget) -> (r: DbusUiWidget)
        ensures
            r.widget_id == widget.widget_id,
            r.widget_type == widget.widget_type,
    {
        DbusUiWidget { widget_id: widget.widget_id, widget_type: widget.widget_type }
    }
}

impl ComponentWidgetEvent {
    /// The view event that a press on a tag reports to its plugin: an
    /// `onClick` on the tag's widget.
    pub fn handle(self) -> (r: DbusEventViewEvent)
        requires
            self is TagClick,
        ensures
            r.event_name@ == "onClick"@,
            r.widget.widget_id == self->widget.widget_id,
            r.widget.widget_type == self->widget.widget_type,
    {
        match self {
            ComponentWidgetEvent::TagClick { widget } => DbusEventViewEvent {
                event_name: "onClick".to_owned(),
                widget: DbusUiWidget::from_native(widget),
            },
            ComponentWidgetEvent::LinkClick { .. } => {
                proof {
                    assert(false);
                }
                DbusEventViewEvent {
                    event_name: String::new(),
                    widget: DbusUiWidget { widget_id: 0, widget_type: String::new() },
                }
            },
        }
    }
}

} // verus!
