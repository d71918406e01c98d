//! The receiver submenus of the tray (playback targets, pairing, forgetting
//! a pairing) and what a click on a menu entry asks the worker to do.

use vstd::prelude::*;

use crate::text::push_str;
use crate::tray::{
    build_pair_label, build_target_label, has_prefix, menu_action_for, receiver_label, tray_receiver_label, tray_text,
    MenuAction, TrayI18n, TrayReceiverEntry, TrayText, MENU_ID_FORGET_PREFIX, MENU_ID_PAIR_PREFIX,
    MENU_ID_TARGET_PREFIX,
};
use crate::worker::TrayCommand;

verus! {

/// One entry of a receiver submenu: its menu id, its text, and for a
/// playback target whether it is ticked.
#[derive(Debug, Clone, PartialEq, Eq)]
pub struct ReceiverMenuItem {
    pub id: String,
    pub label: String,
    pub checked: Option<bool>,
}

/// The menu id of a receiver entry: the prefix, then the receiver id.
pub fn receiver_menu_id(prefix: &str, receiver_id: &str) -> (r: String)
    ensures
        r@ == prefix@ + receiver_id@,
{
    let mut id = String::from_str(prefix);
    push_str(&mut id, receiver_id);
    id
}

/// The text of a playback target entry: the name, and the host in
/// brackets if known.
pub open spec fn target_label(e: TrayReceiverEntry) -> Seq<char> {
    if e.host@.len() == 0 {
        receiver_label(e)
    } else {
        receiver_label(e) + " ("@ + e.host@ + ")"@
    }
}

/// The text of a pairing entry: the name, marked when a pairing is stored.
pub open spec fn pair_label(e: TrayReceiverEntry, i18n: TrayI18n) -> Seq<char> {
    if e.is_paired {
        receiver_label(e) + " ("@ + tray_text(i18n.locale, TrayText::PairedSuffix) + ")"@
    } else {
        receiver_label(e)
    }
}

/// The playback targets: one ticked or unticked entry per receiver.
pub fn target_items(receivers: &Vec<TrayReceiverEntry>) -> (r: Vec<ReceiverMenuItem>)
    ensures
        r@.len() == receivers@.len(),
        forall|i: int| 0 <= i < r@.len() ==> {
            &&& #[trigger] r@[i].id@ == "target:"@ + receivers@[i].receiver_id@
            &&& r@[i].label@ == target_label(receivers@[i])
            &&& r@[i].checked == Some(receivers@[i].is_selected)
        },
{
    let mut items: Vec<ReceiverMenuItem> = Vec::new();
    let mut i: usize = 0;
    while i < receivers.len()
        invariant
            i <= receivers@.len(),
            items@.len() == i,
            forall|j: int| 0 <= j < i ==> {
                &&& #[trigger] items@[j].id@ == "target:"@ + receivers@[j].receiver_id@
                &&& items@[j].label@ == target_label(receivers@[j])
                &&& items@[j].checked == Some(receivers@[j].is_selected)
            },
        decreases receivers@.len() - i,
    {
        let entry = &receivers[i];
        items.push(
            ReceiverMenuItem {
                id: receiver_menu_id(MENU_ID_TARGET_PREFIX, entry.receiver_id.as_str()),
                label: build_target_label(entry),
                checked: Some(entry.is_selected),
            },
        );
        i = i + 1;
    }
    items
}

/// The pairing entries: one per receiver, marked when paired.
pub fn pair_items(receivers: &Vec<TrayReceiverEntry>, i18n: TrayI18n) -> (r: Vec<ReceiverMenuItem>)
    ensures
        r@.len() == receivers@.len(),
        forall|i: int| 0 <= i < r@.len() ==> {
            &&& #[trigger] r@[i].id@ == "pair:"@ + receivers@[i].receiver_id@
            &&& r@[i].label@ == pair_label(receivers@[i], i18n)
            &&& r@[i].checked is None
        },
{
    let mut items: Vec<ReceiverMenuItem> = Vec::new();
    let mut i: usize = 0;
    while i < receivers.len()
        invariant
            i <= receivers@.len(),
            items@.len() == i,
            forall|j: int| 0 <= j < i ==> {
                &&& #[trigger] items@[j].id@ == "pair:"@ + receivers@[j].receiver_id@
                &&& items@[j].label@ == pair_label(receivers@[j], i18n)
                &&& items@[j].checked is None
            },
        decreases receivers@.len() - i,
    {
        let entry = &receivers[i];
        items.push(
            ReceiverMenuItem {
                id: receiver_menu_id(MENU_ID_PAIR_PREFIX, entry.receiver_id.as_str()),
                label: build_pair_label(entry, i18n),
                checked: None,
            },
        );
        i = i + 1;
    }
    items
}

/// The receivers with a stored pairing, in order.
pub open spec fn paired_receivers(receivers: Seq<TrayReceiverEntry>) -> Seq<TrayReceiverEntry>
    decreases receivers.len(),
{
    if receivers.len() == 0 {
        receivers
    } else if receivers.last().is_paired {
        paired_receivers(receivers.drop_last()).push(receivers.last())
    } else {
        paired_receivers(receivers.drop_last())
    }
}

/// Whether `item` is the entry that forgets the pairing of `e`.
pub open spec fn forget_item(item: ReceiverMenuItem, e: TrayReceiverEntry) -> bool {
    &&& item.id@ == "forget:"@ + e.receiver_id@
    &&& item.label@ == receiver_label(e)
    &&& item.checked is None
}

/// The entries that forget a pairing: one per paired receiver, in order.
pub fn forget_items(receivers: &Vec<TrayReceiverEntry>) -> (r: Vec<ReceiverMenuItem>)
    ensures
        r@.len() == paired_receivers(receivers@).len(),
        forall|i: int| 0 <= i < r@.len() ==> forget_item(#[trigger] r@[i], paired_receivers(receivers@)[i]),
{
    let mut items: Vec<ReceiverMenuItem> = Vec::new();
    let mut i: usize = 0;
    while i < receivers.len()
        invariant
            i <= receivers@.len(),
            items@.len() == paired_receivers(receivers@.take(i as int)).len(),
            forall|j: int| 0 <= j < items@.len() ==> forget_item(#[trigger] items@[j], paired_receivers(receivers@.take(i as int))[j]),
        decreases receivers@.len() - i,
    {
        let ghost before = paired_receivers(receivers@.take(i as int));
        assert(receivers@.take(i + 1 as int).drop_last() =~= receivers@.take(i as int));
        let entry = &receivers[i];
        if entry.is_paired {
            items.push(
                ReceiverMenuItem {
                    id: receiver_menu_id(MENU_ID_FORGET_PREFIX, entry.receiver_id.as_str()),
                    label: tray_receiver_label(entry),
                    checked: None,
                },
            );
            assert(paired_receivers(receivers@.take(i + 1 as int)) == before.push(receivers@[i as int]));
        }
        i = i + 1;
    }
    assert(receivers@.take(receivers@.len() as int) =~= receivers@);
    items
}

/// What the worker is asked to do for a click on a menu entry. Ticking or
/// unticking a playback target needs the entry's new tick state (`None`
/// when the entry is gone, and then nothing is asked); starting at login
/// is a platform setting the worker does not handle.
pub open spec fn command_for(action: MenuAction, checked: Option<bool>) -> Option<TrayCommand> {
    match action {
        MenuAction::Refresh => Some(TrayCommand::RefreshDevices),
        MenuAction::StartStreaming => Some(TrayCommand::StartStreaming),
        MenuAction::StopStreaming => Some(TrayCommand::StopStreaming),
        MenuAction::ToggleStartAtLogin => None,
        MenuAction::SetLanguage(language) => Some(TrayCommand::SetLanguage { language }),
        MenuAction::Quit => Some(TrayCommand::Quit),
        MenuAction::ToggleReceiver { receiver_id } => match checked {
            Some(selected) => Some(TrayCommand::SetReceiverSelected { receiver_id, selected }),
            None => None,
        },
        MenuAction::RequestPairing { receiver_id } => Some(TrayCommand::RequestPairingPin { receiver_id }),
        MenuAction::ForgetPairing { receiver_id } => Some(TrayCommand::ForgetPairing { receiver_id }),
    }
}

/// Each click asks the worker for the command of the same purpose, and only
/// that click does: a refresh click refreshes, the start and stop clicks
/// start and stop the stream, a quit click quits, a language click sets
/// that language, and a receiver's pairing and forget entries ask to pair
/// with and forget that receiver. Only the start-at-login entry and an
/// untracked receiver toggle ask for nothing.
pub proof fn lemma_clicks_ask_for_their_commands(action: MenuAction, checked: Option<bool>)
    ensures
        (command_for(action, checked) == Some(TrayCommand::RefreshDevices)) <==> action is Refresh,
        (command_for(action, checked) == Some(TrayCommand::StartStreaming)) <==> action is StartStreaming,
        (command_for(action, checked) == Some(TrayCommand::StopStreaming)) <==> action is StopStreaming,
        (command_for(action, checked) == Some(TrayCommand::Quit)) <==> action is Quit,
        action matches MenuAction::SetLanguage(l) ==> command_for(action, checked) == Some(
            TrayCommand::SetLanguage { language: l },
        ),
        action matches MenuAction::RequestPairing { receiver_id } ==> command_for(action, checked) == Some(
            TrayCommand::RequestPairingPin { receiver_id },
        ),
        action matches MenuAction::ForgetPairing { receiver_id } ==> command_for(action, checked) == Some(
            TrayCommand::ForgetPairing { receiver_id },
        ),
        action matches MenuAction::ToggleReceiver { receiver_id } ==> match checked {
            Some(selected) => command_for(action, checked) == Some(
                TrayCommand::SetReceiverSelected { receiver_id, selected },
            ),
            None => command_for(action, checked) is None,
        },
        command_for(action, checked) is None <==> (action is ToggleStartAtLogin || (action is ToggleReceiver
            && checked is None)),
{
}

/// The worker command for a click, if the click asks the worker for one.
pub fn command_for_action(action: MenuAction, checked: Option<bool>) -> (r: Option<TrayCommand>)
    ensures
        r == command_for(action, checked),
        (r == Some(TrayCommand::RefreshDevices)) <==> action is Refresh,
        (r == Some(TrayCommand::StartStreaming)) <==> action is StartStreaming,
        (r == Some(TrayCommand::StopStreaming)) <==> action is StopStreaming,
        (r == Some(TrayCommand::Quit)) <==> action is Quit,
        r is None <==> (action is ToggleStartAtLogin || (action is ToggleReceiver && checked is None)),
{
    proof {
        lemma_clicks_ask_for_their_commands(action, checked);
    }
    match action {
        MenuAction::Refresh => Some(TrayCommand::RefreshDevices),
        MenuAction::StartStreaming => Some(TrayCommand::StartStreaming),
        MenuAction::StopStreaming => Some(TrayCommand::StopStreaming),
        MenuAction::ToggleStartAtLogin => None,
        MenuAction::SetLanguage(language) => Some(TrayCommand::SetLanguage { language }),
        MenuAction::Quit => Some(TrayCommand::Quit),
        MenuAction::ToggleReceiver { receiver_id } => match checked {
            Some(selected) => Some(TrayCommand::SetReceiverSelected { receiver_id, selected }),
            None => None,
        },
        MenuAction::RequestPairing { receiver_id } => Some(TrayCommand::RequestPairingPin { receiver_id }),
        MenuAction::ForgetPairing { receiver_id } => Some(TrayCommand::ForgetPairing { receiver_id }),
    }
}

/// The command after a PIN prompt: the PIN entered is submitted; a prompt
/// that was cancelled or could not be shown cancels the pairing.
pub fn command_after_pin_prompt(receiver_id: String, pin: Option<String>) -> (r: TrayCommand)
    ensures
        pin matches Some(p) ==> r == (TrayCommand::SubmitPairingPin { receiver_id, pin: p }),
        pin is None ==> r == TrayCommand::CancelPairingPrompt,
{
    match pin {
        Some(pin) => TrayCommand::SubmitPairingPin { receiver_id, pin },
        None => TrayCommand::CancelPairingPrompt,
    }
}

/// The id of a receiver entry is read back as a click on that receiver's
/// entry: a playback target toggles it, a pairing entry asks for its PIN,
/// a forget entry forgets its pairing.
pub proof fn lemma_receiver_menu_ids_round_trip(receiver_id: Seq<char>, r: Option<MenuAction>)
    ensures
        menu_action_for("target:"@ + receiver_id, r) ==> (r matches Some(MenuAction::ToggleReceiver { receiver_id: id })
            && id@ == receiver_id),
        menu_action_for("pair:"@ + receiver_id, r) ==> (r matches Some(MenuAction::RequestPairing { receiver_id: id })
            && id@ == receiver_id),
        menu_action_for("forget:"@ + receiver_id, r) ==> (r matches Some(MenuAction::ForgetPairing { receiver_id: id })
            && id@ == receiver_id),
{
    reveal_strlit("target:");
    reveal_strlit("pair:");
    reveal_strlit("forget:");
    reveal_strlit("refresh");
    reveal_strlit("start-streaming");
    reveal_strlit("stop-streaming");
    reveal_strlit("start-at-login");
    reveal_strlit("language:system");
    reveal_strlit("language:en-us");
    reveal_strlit("language:zh-cn");
    reveal_strlit("quit");
    let t = "target:"@ + receiver_id;
    let p = "pair:"@ + receiver_id;
    let f = "forget:"@ + receiver_id;
    assert(t[0] == 't' && p[0] == 'p' && f[0] == 'f');
    assert(t.take(7) =~= "target:"@);
    assert(t.skip(7) =~= receiver_id);
    assert(p.take(5) =~= "pair:"@);
    assert(p.skip(5) =~= receiver_id);
    assert(f.take(7) =~= "forget:"@);
    assert(f.skip(7) =~= receiver_id);
    assert(t != "start-streaming"@ && t != "start-at-login"@) by {
        assert(t[1] == 'a');
    }
    assert(p[1] == 'a');
    assert(!has_prefix(p, "target:"@));
    assert(!has_prefix(f, "target:"@));
    assert(!has_prefix(f, "pair:"@));
    assert(f != "refresh"@ && f != "start-streaming"@ && f != "stop-streaming"@ && f != "start-at-login"@ && f
        != "quit"@);
    assert(f != "language:system"@ && f != "language:en-us"@ && f != "language:zh-cn"@);
    assert(p != "refresh"@ && p != "start-streaming"@ && p != "stop-streaming"@ && p != "start-at-login"@ && p
        != "quit"@);
    assert(p != "language:system"@ && p != "language:en-us"@ && p != "language:zh-cn"@);
    assert(t != "refresh"@ && t != "stop-streaming"@ && t != "quit"@);
    assert(t != "language:system"@ && t != "language:en-us"@ && t != "language:zh-cn"@);
}

} // verus!
