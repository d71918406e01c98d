//! The lines of the tray menu, in order, from the menu model: what each
//! shows, whether it can be clicked, and what a click asks for.

use vstd::prelude::*;

use crate::ui_state::{SessionState, TrayAppState, TrayMenuModel};

verus! {

/// What a click on a menu line asks for.
#[derive(Debug, Clone, PartialEq, Eq)]
pub enum TrayAction {
    RefreshDevices,
    ToggleAutoReconnect,
    ToggleLaunchAtStartup,
    SelectDevice(String),
    ToggleSenderMute,
    SetSenderVolume(u8),
    StopStreaming,
    ShowAbout,
    Quit,
}

/// One line of the tray menu.
#[derive(Debug, Clone, PartialEq, Eq)]
pub enum TrayMenuEntry {
    /// Text only.
    Label { text: String, enabled: bool },
    /// A line that asks for `action` when clicked.
    Action { text: String, enabled: bool, action: TrayAction },
    Separator,
}

/// A click's request, with its text as characters.
pub enum TrayActionView {
    RefreshDevices,
    ToggleAutoReconnect,
    ToggleLaunchAtStartup,
    SelectDevice(Seq<char>),
    ToggleSenderMute,
    SetSenderVolume(u8),
    StopStreaming,
    ShowAbout,
    Quit,
}

/// A menu line, with its text as characters.
pub enum TrayMenuEntryView {
    Label(Seq<char>, bool),
    Action(Seq<char>, bool, TrayActionView),
    Separator,
}

impl View for TrayAction {
    type V = TrayActionView;

    open spec fn view(&self) -> TrayActionView {
        match self {
            TrayAction::RefreshDevices => TrayActionView::RefreshDevices,
            TrayAction::ToggleAutoReconnect => TrayActionView::ToggleAutoReconnect,
            TrayAction::ToggleLaunchAtStartup => TrayActionView::ToggleLaunchAtStartup,
            TrayAction::SelectDevice(id) => TrayActionView::SelectDevice(id@),
            TrayAction::ToggleSenderMute => TrayActionView::ToggleSenderMute,
            TrayAction::SetSenderVolume(p) => TrayActionView::SetSenderVolume(*p),
            TrayAction::StopStreaming => TrayActionView::StopStreaming,
            TrayAction::ShowAbout => TrayActionView::ShowAbout,
            TrayAction::Quit => TrayActionView::Quit,
        }
    }
}

impl View for TrayMenuEntry {
    type V = TrayMenuEntryView;

    open spec fn view(&self) -> TrayMenuEntryView {
        match self {
            TrayMenuEntry::Label { text, enabled } => TrayMenuEntryView::Label(text@, *enabled),
            TrayMenuEntry::Action { text, enabled, action } => TrayMenuEntryView::Action(text@, *enabled, action@),
            TrayMenuEntry::Separator => TrayMenuEntryView::Separator,
        }
    }
}

/// The views of a list of menu lines.
pub open spec fn entry_views(entries: Seq<TrayMenuEntry>) -> Seq<TrayMenuEntryView> {
    entries.map_values(|e: TrayMenuEntry| e@)
}

/// The menu's lines: the status, the refresh and settings toggles, "stop"
/// while streaming, the volume controls, the receivers (or the note that
/// there are none), then "about" and "quit".
pub open spec fn menu_entries(m: TrayMenuModel, streaming: bool) -> Seq<TrayMenuEntryView> {
    seq![
        TrayMenuEntryView::Label(m.status_label@, false),
        TrayMenuEntryView::Separator,
        TrayMenuEntryView::Action("刷新设备"@, m.refresh_enabled, TrayActionView::RefreshDevices),
        TrayMenuEntryView::Action(m.auto_reconnect_label@, true, TrayActionView::ToggleAutoReconnect),
        TrayMenuEntryView::Action(m.launch_at_startup_label@, true, TrayActionView::ToggleLaunchAtStartup),
    ] + (if streaming {
        seq![TrayMenuEntryView::Action("停止串流"@, true, TrayActionView::StopStreaming)]
    } else {
        seq![]
    }) + seq![
        TrayMenuEntryView::Label("发送音量"@, false),
        TrayMenuEntryView::Action(m.mute_label@, true, TrayActionView::ToggleSenderMute),
    ] + m.volume_items@.map_values(
        |v: crate::ui_state::TrayVolumeMenuItem|
            TrayMenuEntryView::Action(v.label@, true, TrayActionView::SetSenderVolume(v.percent)),
    ) + seq![TrayMenuEntryView::Separator] + match m.empty_label {
        Some(l) => seq![TrayMenuEntryView::Label(l@, false)],
        None => m.device_items@.map_values(
            |d: crate::ui_state::TrayDeviceMenuItem|
                TrayMenuEntryView::Action(d.label@, d.enabled, TrayActionView::SelectDevice(d.device_id@)),
        ),
    } + seq![
        TrayMenuEntryView::Separator,
        TrayMenuEntryView::Action("关于"@, true, TrayActionView::ShowAbout),
        TrayMenuEntryView::Action("退出"@, true, TrayActionView::Quit),
    ]
}

fn action_entry(text: &str, enabled: bool, action: TrayAction) -> (r: TrayMenuEntry)
    ensures
        r@ == TrayMenuEntryView::Action(text@, enabled, action@),
{
    TrayMenuEntry::Action { text: String::from_str(text), enabled, action }
}

/// The menu's lines for `model`, with "stop" while `state` streams.
pub fn tray_menu_entries(model: &TrayMenuModel, state: &TrayAppState) -> (r: Vec<TrayMenuEntry>)
    ensures
        entry_views(r@) == menu_entries(*model, state.app_state.active_session is Streaming),
{
    let streaming = match state.app_state.active_session {
        SessionState::Streaming { .. } => true,
        _ => false,
    };
    let mut entries: Vec<TrayMenuEntry> = Vec::new();
    entries.push(TrayMenuEntry::Label { text: model.status_label.clone(), enabled: false });
    entries.push(TrayMenuEntry::Separator);
    entries.push(action_entry("刷新设备", model.refresh_enabled, TrayAction::RefreshDevices));
    entries.push(action_entry(model.auto_reconnect_label.as_str(), true, TrayAction::ToggleAutoReconnect));
    entries.push(action_entry(model.launch_at_startup_label.as_str(), true, TrayAction::ToggleLaunchAtStartup));
    let ghost top = seq![
        TrayMenuEntryView::Label(model.status_label@, false),
        TrayMenuEntryView::Separator,
        TrayMenuEntryView::Action("刷新设备"@, model.refresh_enabled, TrayActionView::RefreshDevices),
        TrayMenuEntryView::Action(model.auto_reconnect_label@, true, TrayActionView::ToggleAutoReconnect),
        TrayMenuEntryView::Action(model.launch_at_startup_label@, true, TrayActionView::ToggleLaunchAtStartup),
    ];
    assert(entry_views(entries@) =~= top);
    let ghost stop_part: Seq<TrayMenuEntryView> = if streaming {
        seq![TrayMenuEntryView::Action("停止串流"@, true, TrayActionView::StopStreaming)]
    } else {
        seq![]
    };
    if streaming {
        entries.push(action_entry("停止串流", true, TrayAction::StopStreaming));
    }
    assert(entry_views(entries@) =~= top + stop_part);
    entries.push(TrayMenuEntry::Label { text: String::from_str("发送音量"), enabled: false });
    entries.push(action_entry(model.mute_label.as_str(), true, TrayAction::ToggleSenderMute));
    let ghost head = entry_views(entries@);
    assert(head =~= top + stop_part + seq![
        TrayMenuEntryView::Label("发送音量"@, false),
        TrayMenuEntryView::Action(model.mute_label@, true, TrayActionView::ToggleSenderMute),
    ]);
    let mut i: usize = 0;
    while i < model.volume_items.len()
        invariant
            i <= model.volume_items@.len(),
            entry_views(entries@) == head + model.volume_items@.take(i as int).map_values(
                |v: crate::ui_state::TrayVolumeMenuItem|
                    TrayMenuEntryView::Action(v.label@, true, TrayActionView::SetSenderVolume(v.percent)),
            ),
        decreases model.volume_items@.len() - i,
    {
        let item = &model.volume_items[i];
        let ghost prev = entries@;
        let entry = action_entry(item.label.as_str(), true, TrayAction::SetSenderVolume(item.percent));
        entries.push(entry);
        assert(entry_views(entries@) =~= entry_views(prev).push(entry@));
        assert(model.volume_items@.take(i + 1 as int) =~= model.volume_items@.take(i as int).push(
            model.volume_items@[i as int],
        ));
        assert(entry_views(entries@) =~= head + model.volume_items@.take(i + 1 as int).map_values(
            |v: crate::ui_state::TrayVolumeMenuItem|
                TrayMenuEntryView::Action(v.label@, true, TrayActionView::SetSenderVolume(v.percent)),
        ));
        i = i + 1;
    }
    assert(model.volume_items@.take(model.volume_items@.len() as int) =~= model.volume_items@);
    let ghost volume_part = model.volume_items@.map_values(
        |v: crate::ui_state::TrayVolumeMenuItem|
            TrayMenuEntryView::Action(v.label@, true, TrayActionView::SetSenderVolume(v.percent)),
    );
    assert(entry_views(entries@) == head + volume_part);
    let ghost prev = entries@;
    entries.push(TrayMenuEntry::Separator);
    assert(entry_views(entries@) =~= entry_views(prev).push(TrayMenuEntryView::Separator));
    let ghost middle = entry_views(entries@);
    assert(middle =~= head + volume_part + seq![TrayMenuEntryView::Separator]);
    let ghost device_part: Seq<TrayMenuEntryView> = if model.empty_label is Some {
        seq![TrayMenuEntryView::Label(model.empty_label->0@, false)]
    } else {
        model.device_items@.map_values(
            |d: crate::ui_state::TrayDeviceMenuItem|
                TrayMenuEntryView::Action(d.label@, d.enabled, TrayActionView::SelectDevice(d.device_id@)),
        )
    };
    match &model.empty_label {
        Some(label) => {
            entries.push(TrayMenuEntry::Label { text: label.clone(), enabled: false });
        },
        None => {
            let ghost before = entry_views(entries@);
            let mut j: usize = 0;
            while j < model.device_items.len()
                invariant
                    j <= model.device_items@.len(),
                    entry_views(entries@) == before + model.device_items@.take(j as int).map_values(
                        |d: crate::ui_state::TrayDeviceMenuItem|
                            TrayMenuEntryView::Action(d.label@, d.enabled, TrayActionView::SelectDevice(d.device_id@)),
                    ),
                decreases model.device_items@.len() - j,
            {
                let item = &model.device_items[j];
                let ghost prev = entries@;
                let entry = TrayMenuEntry::Action {
                    text: item.label.clone(),
                    enabled: item.enabled,
                    action: TrayAction::SelectDevice(item.device_id.clone()),
                };
                entries.push(entry);
                assert(entry_views(entries@) =~= entry_views(prev).push(entry@));
                assert(model.device_items@.take(j + 1 as int) =~= model.device_items@.take(j as int).push(
                    model.device_items@[j as int],
                ));
                assert(entry_views(entries@) =~= before + model.device_items@.take(j + 1 as int).map_values(
                    |d: crate::ui_state::TrayDeviceMenuItem|
                        TrayMenuEntryView::Action(d.label@, d.enabled, TrayActionView::SelectDevice(d.device_id@)),
                ));
                j = j + 1;
            }
            assert(model.device_items@.take(model.device_items@.len() as int) =~= model.device_items@);
        },
    }
    assert(entry_views(entries@) =~= middle + device_part);
    entries.push(TrayMenuEntry::Separator);
    entries.push(action_entry("关于", true, TrayAction::ShowAbout));
    entries.push(action_entry("退出", true, TrayAction::Quit));
    let ghost tail = seq![
        TrayMenuEntryView::Separator,
        TrayMenuEntryView::Action("关于"@, true, TrayActionView::ShowAbout),
        TrayMenuEntryView::Action("退出"@, true, TrayActionView::Quit),
    ];
    assert(entry_views(entries@) =~= middle + device_part + tail);
    assert(menu_entries(*model, streaming) =~= top + stop_part + seq![
        TrayMenuEntryView::Label("发送音量"@, false),
        TrayMenuEntryView::Action(model.mute_label@, true, TrayActionView::ToggleSenderMute),
    ] + volume_part + seq![TrayMenuEntryView::Separator] + device_part + tail);
    assert(entry_views(entries@) =~= menu_entries(*model, streaming));
    entries
}

} // verus!
