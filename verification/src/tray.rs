//! The tray's texts in each language, the tray run-time phases, and the
//! pure parts of building and reading the tray menu.

use vstd::prelude::*;

use crate::config::TrayLanguagePreference;
use crate::controller::opt_str_view;
use crate::error::RairstreamError;
use crate::text::{ascii_lower, decimal, push_decimal, push_str, str_chars, str_eq, string_from_range, to_ascii_lower};

verus! {

/// A language of the tray.
#[derive(Debug, Clone, Copy, PartialEq, Eq, Structural)]
pub enum TrayLocale {
    EnUs,
    ZhCn,
}

/// A key of the tray's texts.
#[derive(Debug, Clone, Copy, PartialEq, Eq, Structural)]
pub enum TrayText {
    StatusStarting,
    StatusIdle,
    StatusWaitingForPin,
    StatusStreamingToDevices,
    RefreshDevices,
    PlaybackTargets,
    PairDevice,
    ForgetPairing,
    StartStreaming,
    StopStreaming,
    StartAtLogin,
    Language,
    LanguageSystem,
    LanguageEnglish,
    LanguageChinese,
    Quit,
    NoDevicesAvailable,
    NoSavedPairings,
    PairedSuffix,
    SavedPairingFor,
    RemovedPairingFor,
    SelectPlaybackTarget,
    EnterPinShownOn,
}

/// The tray's text for `key` in `locale`.
pub open spec fn tray_text(locale: TrayLocale, key: TrayText) -> Seq<char> {
    match locale {
        TrayLocale::ZhCn => match key {
            TrayText::StatusStarting => "状态：正在启动..."@,
            TrayText::StatusIdle => "状态：空闲"@,
            TrayText::StatusWaitingForPin => "状态：等待 PIN"@,
            TrayText::StatusStreamingToDevices => "状态：正在串流到"@,
            TrayText::RefreshDevices => "刷新设备"@,
            TrayText::PlaybackTargets => "播放目标"@,
            TrayText::PairDevice => "配对设备"@,
            TrayText::ForgetPairing => "忘记配对"@,
            TrayText::StartStreaming => "开始串流"@,
            TrayText::StopStreaming => "停止串流"@,
            TrayText::StartAtLogin => "登录时启动"@,
            TrayText::Language => "语言"@,
            TrayText::LanguageSystem => "跟随系统"@,
            TrayText::LanguageEnglish => "英语"@,
            TrayText::LanguageChinese => "简体中文"@,
            TrayText::Quit => "退出"@,
            TrayText::NoDevicesAvailable => "没有可用设备"@,
            TrayText::NoSavedPairings => "没有已保存的配对"@,
            TrayText::PairedSuffix => "已配对"@,
            TrayText::SavedPairingFor => "已保存配对："@,
            TrayText::RemovedPairingFor => "已移除配对："@,
            TrayText::SelectPlaybackTarget => "请至少选择一个播放目标"@,
            TrayText::EnterPinShownOn => "输入此设备上显示的 PIN："@,
        },
        TrayLocale::EnUs => match key {
            TrayText::StatusStarting => "Status: Starting..."@,
            TrayText::StatusIdle => "Status: Idle"@,
            TrayText::StatusWaitingForPin => "Status: Waiting for PIN"@,
            TrayText::StatusStreamingToDevices => "Status: Streaming to"@,
            TrayText::RefreshDevices => "Refresh Devices"@,
            TrayText::PlaybackTargets => "Playback Targets"@,
            TrayText::PairDevice => "Pair Device"@,
            TrayText::ForgetPairing => "Forget Pairing"@,
            TrayText::StartStreaming => "Start Streaming"@,
            TrayText::StopStreaming => "Stop Streaming"@,
            TrayText::StartAtLogin => "Start at login"@,
            TrayText::Language => "Language"@,
            TrayText::LanguageSystem => "Follow System"@,
            TrayText::LanguageEnglish => "English"@,
            TrayText::LanguageChinese => "Chinese (Simplified)"@,
            TrayText::Quit => "Quit"@,
            TrayText::NoDevicesAvailable => "No devices available"@,
            TrayText::NoSavedPairings => "No saved pairings"@,
            TrayText::PairedSuffix => "paired"@,
            TrayText::SavedPairingFor => "saved pairing for"@,
            TrayText::RemovedPairingFor => "removed pairing for"@,
            TrayText::SelectPlaybackTarget => "select at least one playback target"@,
            TrayText::EnterPinShownOn => "Enter the PIN shown on"@,
        },
    }
}

/// The tray's text for `key` in `locale`.
pub fn text_for(locale: TrayLocale, key: TrayText) -> (r: &'static str)
    ensures
        r@ == tray_text(locale, key),
{
    match locale {
        TrayLocale::ZhCn => match key {
            TrayText::StatusStarting => "状态：正在启动...",
            TrayText::StatusIdle => "状态：空闲",
            TrayText::StatusWaitingForPin => "状态：等待 PIN",
            TrayText::StatusStreamingToDevices => "状态：正在串流到",
            TrayText::RefreshDevices => "刷新设备",
            TrayText::PlaybackTargets => "播放目标",
            TrayText::PairDevice => "配对设备",
            TrayText::ForgetPairing => "忘记配对",
            TrayText::StartStreaming => "开始串流",
            TrayText::StopStreaming => "停止串流",
            TrayText::StartAtLogin => "登录时启动",
            TrayText::Language => "语言",
            TrayText::LanguageSystem => "跟随系统",
            TrayText::LanguageEnglish => "英语",
            TrayText::LanguageChinese => "简体中文",
            TrayText::Quit => "退出",
            TrayText::NoDevicesAvailable => "没有可用设备",
            TrayText::NoSavedPairings => "没有已保存的配对",
            TrayText::PairedSuffix => "已配对",
            TrayText::SavedPairingFor => "已保存配对：",
            TrayText::RemovedPairingFor => "已移除配对：",
            TrayText::SelectPlaybackTarget => "请至少选择一个播放目标",
            TrayText::EnterPinShownOn => "输入此设备上显示的 PIN：",
        },
        TrayLocale::EnUs => match key {
            TrayText::StatusStarting => "Status: Starting...",
            TrayText::StatusIdle => "Status: Idle",
            TrayText::StatusWaitingForPin => "Status: Waiting for PIN",
            TrayText::StatusStreamingToDevices => "Status: Streaming to",
            TrayText::RefreshDevices => "Refresh Devices",
            TrayText::PlaybackTargets => "Playback Targets",
            TrayText::PairDevice => "Pair Device",
            TrayText::ForgetPairing => "Forget Pairing",
            TrayText::StartStreaming => "Start Streaming",
            TrayText::StopStreaming => "Stop Streaming",
            TrayText::StartAtLogin => "Start at login",
            TrayText::Language => "Language",
            TrayText::LanguageSystem => "Follow System",
            TrayText::LanguageEnglish => "English",
            TrayText::LanguageChinese => "Chinese (Simplified)",
            TrayText::Quit => "Quit",
            TrayText::NoDevicesAvailable => "No devices available",
            TrayText::NoSavedPairings => "No saved pairings",
            TrayText::PairedSuffix => "paired",
            TrayText::SavedPairingFor => "saved pairing for",
            TrayText::RemovedPairingFor => "removed pairing for",
            TrayText::SelectPlaybackTarget => "select at least one playback target",
            TrayText::EnterPinShownOn => "Enter the PIN shown on",
        },
    }
}
/// The characters of `tag` before its first `.`.
pub open spec fn before_dot(tag: Seq<char>) -> Seq<char> {
    if exists|i: int| 0 <= i < tag.len() && tag[i] == '.' {
        tag.take(choose|i: int| 0 <= i < tag.len() && tag[i] == '.' && forall|j: int| 0 <= j < i ==> tag[j] != '.')
    } else {
        tag
    }
}

/// A locale tag's language part, `_` written `-`, in lower case.
pub open spec fn normalized_tag(tag: Seq<char>) -> Seq<char> {
    before_dot(tag).map_values(|c: char| ascii_lower(if c == '_' { '-' } else { c }))
}

/// Whether `p` is a prefix of `s`.
pub open spec fn has_prefix(s: Seq<char>, p: Seq<char>) -> bool {
    p.len() <= s.len() && s.take(p.len() as int) == p
}

/// The tray language a locale tag such as `zh_CN.UTF-8` names: simplified
/// Chinese for `zh-cn` and `zh-hans…`, English for `en…`, none otherwise.
pub open spec fn locale_of_tag(tag: Seq<char>) -> Option<TrayLocale> {
    let n = normalized_tag(tag);
    if n == "zh-cn"@ || has_prefix(n, "zh-hans"@) {
        Some(TrayLocale::ZhCn)
    } else if n == "en-us"@ || has_prefix(n, "en"@) {
        Some(TrayLocale::EnUs)
    } else {
        None
    }
}

/// The tray language for a preference and the system's locale tag: the
/// preference itself, or for `System` the tag's language, English when the
/// tag names none.
pub open spec fn resolved_locale(preference: TrayLanguagePreference, system_locale: Option<Seq<char>>) -> TrayLocale {
    match preference {
        TrayLanguagePreference::EnUs => TrayLocale::EnUs,
        TrayLanguagePreference::ZhCn => TrayLocale::ZhCn,
        TrayLanguagePreference::System => match system_locale {
            Some(tag) => match locale_of_tag(tag) {
                Some(l) => l,
                None => TrayLocale::EnUs,
            },
            None => TrayLocale::EnUs,
        },
    }
}

/// Whether `v` starts with the characters of `p`.
fn starts_with_chars(v: &Vec<char>, p: &str) -> (r: bool)
    ensures
        r == has_prefix(v@, p@),
{
    let pv = str_chars(p);
    if pv.len() > v.len() {
        return false;
    }
    let mut i: usize = 0;
    while i < pv.len()
        invariant
            pv@ == p@,
            pv@.len() <= v@.len(),
            i <= pv@.len(),
            forall|j: int| 0 <= j < i ==> v@[j] == pv@[j],
        decreases pv@.len() - i,
    {
        if v[i] != pv[i] {
            assert(v@.take(pv@.len() as int)[i as int] != p@[i as int]);
            return false;
        }
        i = i + 1;
    }
    assert(v@.take(pv@.len() as int) =~= p@);
    true
}

/// Whether `v` holds exactly the characters of `p`.
fn chars_are(v: &Vec<char>, p: &str) -> (r: bool)
    ensures
        r == (v@ == p@),
{
    let pv = str_chars(p);
    crate::text::chars_eq(v, &pv)
}

/// The tray language a locale tag names, if any.
pub fn locale_from_tag(tag: &str) -> (r: Option<TrayLocale>)
    ensures
        r == locale_of_tag(tag@),
{
    let chars = str_chars(tag);
    let mut end: usize = 0;
    while end < chars.len() && chars[end] != '.'
        invariant
            end <= chars@.len(),
            chars@ == tag@,
            forall|j: int| 0 <= j < end ==> chars@[j] != '.',
        decreases chars@.len() - end,
    {
        end = end + 1;
    }
    proof {
        if end < chars@.len() {
            assert(exists|i: int| 0 <= i < tag@.len() && tag@[i] == '.' && forall|j: int| 0 <= j < i ==> tag@[j] != '.');
            let c = choose|i: int| 0 <= i < tag@.len() && tag@[i] == '.' && forall|j: int| 0 <= j < i ==> tag@[j] != '.';
            assert(c == end) by {
                if c < end {
                    assert(tag@[c] != '.');
                } else if c > end {
                    assert(tag@[end as int] != '.');
                }
            }
        }
    }
    let mut normalized: Vec<char> = Vec::new();
    let mut i: usize = 0;
    while i < end
        invariant
            i <= end <= chars@.len(),
            chars@ == tag@,
            normalized@.len() == i,
            forall|j: int| 0 <= j < i ==> normalized@[j] == ascii_lower(if chars@[j] == '_' { '-' } else { chars@[j] }),
        decreases end - i,
    {
        let c = chars[i];
        let d = if c == '_' { '-' } else { c };
        normalized.push(to_ascii_lower(d));
        i = i + 1;
    }
    assert(normalized@ =~= normalized_tag(tag@));
    if chars_are(&normalized, "zh-cn") || starts_with_chars(&normalized, "zh-hans") {
        return Some(TrayLocale::ZhCn);
    }
    if chars_are(&normalized, "en-us") || starts_with_chars(&normalized, "en") {
        return Some(TrayLocale::EnUs);
    }
    None
}

/// The tray language for a preference and the system's locale tag.
pub fn resolve_locale(preference: TrayLanguagePreference, system_locale: Option<&str>) -> (r: TrayLocale)
    ensures
        r == resolved_locale(preference, opt_str_view(system_locale)),
{
    match preference {
        TrayLanguagePreference::EnUs => TrayLocale::EnUs,
        TrayLanguagePreference::ZhCn => TrayLocale::ZhCn,
        TrayLanguagePreference::System => match system_locale {
            Some(tag) => match locale_from_tag(tag) {
                Some(l) => l,
                None => TrayLocale::EnUs,
            },
            None => TrayLocale::EnUs,
        },
    }
}

/// The tray's texts in one language.
#[derive(Debug, Clone, Copy, PartialEq, Eq, Structural)]
pub struct TrayI18n {
    pub locale: TrayLocale,
}

impl TrayI18n {
    /// The texts for a preference, given the system's locale tag.
    pub fn with_system_locale(preference: TrayLanguagePreference, system_locale: Option<&str>) -> (r: Self)
        ensures
            r.locale == resolved_locale(preference, opt_str_view(system_locale)),
    {
        TrayI18n { locale: resolve_locale(preference, system_locale) }
    }

    /// The text for `key`.
    pub fn text(&self, key: TrayText) -> (r: &'static str)
        ensures
            r@ == tray_text(self.locale, key),
    {
        text_for(self.locale, key)
    }

    /// `"<waiting for PIN> - label"`.
    pub fn status_waiting_for_pin(&self, label: &str) -> (r: String)
        ensures
            r@ == tray_text(self.locale, TrayText::StatusWaitingForPin) + " - "@ + label@,
    {
        let mut r = String::from_str(self.text(TrayText::StatusWaitingForPin));
        push_str(&mut r, " - ");
        push_str(&mut r, label);
        r
    }

    /// `"<streaming to> N device(s)"`.
    pub fn status_streaming_to_devices(&self, count: usize) -> (r: String)
        ensures
            r@ == tray_text(self.locale, TrayText::StatusStreamingToDevices) + " "@ + decimal(count as nat)
                + " device(s)"@,
    {
        let mut r = String::from_str(self.text(TrayText::StatusStreamingToDevices));
        push_str(&mut r, " ");
        push_decimal(&mut r, count as u64);
        push_str(&mut r, " device(s)");
        r
    }

    /// `"<saved pairing for> label"`.
    pub fn saved_pairing_for(&self, label: &str) -> (r: String)
        ensures
            r@ == tray_text(self.locale, TrayText::SavedPairingFor) + " "@ + label@,
    {
        let mut r = String::from_str(self.text(TrayText::SavedPairingFor));
        push_str(&mut r, " ");
        push_str(&mut r, label);
        r
    }

    /// `"<removed pairing for> label"`.
    pub fn removed_pairing_for(&self, label: &str) -> (r: String)
        ensures
            r@ == tray_text(self.locale, TrayText::RemovedPairingFor) + " "@ + label@,
    {
        let mut r = String::from_str(self.text(TrayText::RemovedPairingFor));
        push_str(&mut r, " ");
        push_str(&mut r, label);
        r
    }

    /// `"<enter the PIN shown on> name:"`.
    pub fn enter_pin_shown_on(&self, display_name: &str) -> (r: String)
        ensures
            r@ == tray_text(self.locale, TrayText::EnterPinShownOn) + " "@ + display_name@ + ":"@,
    {
        let mut r = String::from_str(self.text(TrayText::EnterPinShownOn));
        push_str(&mut r, " ");
        push_str(&mut r, display_name);
        push_str(&mut r, ":");
        r
    }
}


// ---------------------------------------------------------------------------
// Run-time phases

/// What the tray is doing.
#[derive(Debug, Clone, PartialEq, Eq)]
pub enum TrayPhase {
    Idle,
    WaitingForPin { receiver_id: String },
    Streaming { receiver_ids: Vec<String> },
    Reconnecting { receiver_ids: Vec<String>, attempt: u32 },
}

impl Default for TrayPhase {
    fn default() -> (r: Self)
        ensures
            r == TrayPhase::Idle,
    {
        TrayPhase::Idle
    }
}

/// What a quit request asks for.
#[derive(Debug, Clone, Copy, PartialEq, Eq, Structural)]
pub enum QuitAction {
    ExitNow,
    StopStreamingFirst,
}

/// The tray's phase and whether it leaves once the stream has stopped.
#[derive(Debug, Clone, PartialEq, Eq)]
pub struct TrayRuntimeState {
    pub phase: TrayPhase,
    pub exit_after_stop: bool,
}

impl Default for TrayRuntimeState {
    fn default() -> (r: Self)
        ensures
            r.phase == TrayPhase::Idle,
            !r.exit_after_stop,
    {
        TrayRuntimeState { phase: TrayPhase::Idle, exit_after_stop: false }
    }
}

/// Whether a stream is running or being re-established.
pub open spec fn phase_streams(p: TrayPhase) -> bool {
    p is Streaming || p is Reconnecting
}

/// The state and answer after a quit request.
pub open spec fn after_request_quit(s: TrayRuntimeState) -> (TrayRuntimeState, QuitAction) {
    if phase_streams(s.phase) {
        (TrayRuntimeState { exit_after_stop: true, ..s }, QuitAction::StopStreamingFirst)
    } else {
        (s, QuitAction::ExitNow)
    }
}

/// The state after a stop, and whether the tray leaves now.
pub open spec fn after_stop_streaming(s: TrayRuntimeState) -> (TrayRuntimeState, bool) {
    (TrayRuntimeState { phase: TrayPhase::Idle, exit_after_stop: false }, s.exit_after_stop)
}

impl TrayRuntimeState {
    /// The current phase.
    pub fn phase(&self) -> (r: &TrayPhase)
        ensures
            *r == self.phase,
    {
        &self.phase
    }

    /// Waits for the PIN of `receiver_id`.
    pub fn begin_waiting_for_pin(&mut self, receiver_id: &str)
        ensures
            final(self).phase matches TrayPhase::WaitingForPin { receiver_id: id } && id@ == receiver_id@,
            final(self).exit_after_stop == old(self).exit_after_stop,
    {
        self.phase = TrayPhase::WaitingForPin { receiver_id: String::from_str(receiver_id) };
    }

    /// Leaves the PIN prompt; any other phase stays as it is.
    pub fn cancel_waiting_for_pin(&mut self)
        ensures
            old(self).phase is WaitingForPin ==> final(self).phase == TrayPhase::Idle,
            !(old(self).phase is WaitingForPin) ==> final(self).phase == old(self).phase,
            final(self).exit_after_stop == old(self).exit_after_stop,
    {
        if let TrayPhase::WaitingForPin { .. } = self.phase {
            self.phase = TrayPhase::Idle;
        }
    }

    /// Streams to `receiver_ids`.
    pub fn start_streaming(&mut self, receiver_ids: Vec<String>)
        ensures
            *final(self) == (TrayRuntimeState {
                phase: TrayPhase::Streaming { receiver_ids },
                exit_after_stop: false,
            }),
    {
        self.exit_after_stop = false;
        self.phase = TrayPhase::Streaming { receiver_ids };
    }

    /// Re-establishes the stream to `receiver_ids`, try number `attempt`.
    pub fn begin_reconnecting(&mut self, receiver_ids: Vec<String>, attempt: u32)
        ensures
            *final(self) == (TrayRuntimeState {
                phase: TrayPhase::Reconnecting { receiver_ids, attempt },
                exit_after_stop: false,
            }),
    {
        self.exit_after_stop = false;
        self.phase = TrayPhase::Reconnecting { receiver_ids, attempt };
    }

    /// Stops: the tray goes idle; the result says whether a quit was waiting
    /// for this stop.
    pub fn stop_streaming(&mut self) -> (r: bool)
        ensures
            (*final(self), r) == after_stop_streaming(*old(self)),
    {
        self.phase = TrayPhase::Idle;
        let should_exit = self.exit_after_stop;
        self.exit_after_stop = false;
        should_exit
    }

    /// A quit request: with a stream running or reconnecting the stream is
    /// stopped first and the tray leaves after that; otherwise it leaves now.
    pub fn request_quit(&mut self) -> (r: QuitAction)
        ensures
            (*final(self), r) == after_request_quit(*old(self)),
    {
        match self.phase {
            TrayPhase::Streaming { .. } | TrayPhase::Reconnecting { .. } => {
                self.exit_after_stop = true;
                QuitAction::StopStreamingFirst
            },
            _ => QuitAction::ExitNow,
        }
    }
}

/// A quit request while a stream runs or reconnects is answered with "stop
/// first", and the stop that follows goes idle and reports that the tray
/// should now leave.
pub proof fn lemma_quit_while_streaming_exits_after_stop(s: TrayRuntimeState)
    requires
        phase_streams(s.phase),
    ensures
        after_request_quit(s).1 == QuitAction::StopStreamingFirst,
        after_stop_streaming(after_request_quit(s).0).1,
        after_stop_streaming(after_request_quit(s).0).0.phase == TrayPhase::Idle,
{
}

/// A quit request without a stream leaves at once and changes nothing.
pub proof fn lemma_quit_when_idle_exits_now(s: TrayRuntimeState)
    requires
        !phase_streams(s.phase),
    ensures
        after_request_quit(s) == (s, QuitAction::ExitNow),
{
}

/// Seconds before reconnect try number `attempt`: none for the first, then
/// 2, 5, 10 and 30 seconds, and a minute from the sixth on.
pub open spec fn reconnect_delay_secs(attempt: u32) -> u64 {
    if attempt <= 1 {
        0
    } else if attempt == 2 {
        2
    } else if attempt == 3 {
        5
    } else if attempt == 4 {
        10
    } else if attempt == 5 {
        30
    } else {
        60
    }
}

/// Seconds to wait before reconnect try number `attempt`.
pub fn reconnect_delay(attempt: u32) -> (r: u64)
    ensures
        r == reconnect_delay_secs(attempt),
{
    match attempt {
        0 | 1 => 0,
        2 => 2,
        3 => 5,
        4 => 10,
        5 => 30,
        _ => 60,
    }
}

/// The wait before a reconnect never shrinks from one try to the next and
/// never exceeds a minute.
pub proof fn lemma_reconnect_delay_monotone_capped(a: u32, b: u32)
    requires
        a <= b,
    ensures
        reconnect_delay_secs(a) <= reconnect_delay_secs(b),
        reconnect_delay_secs(b) <= 60,
{
}

// ---------------------------------------------------------------------------
// Receivers in the tray

/// A receiver as the tray lists it.
#[derive(Debug, Clone, PartialEq, Eq)]
pub struct TrayReceiverEntry {
    pub receiver_id: String,
    pub display_name: Option<String>,
    pub host: String,
    pub is_selected: bool,
    pub is_paired: bool,
}

/// The name the tray shows for a receiver: its display name, else its id.
pub open spec fn receiver_label(e: TrayReceiverEntry) -> Seq<char> {
    match e.display_name {
        Some(n) => n@,
        None => e.receiver_id@,
    }
}

/// The name the tray shows for a receiver.
pub fn tray_receiver_label(entry: &TrayReceiverEntry) -> (r: String)
    ensures
        r@ == receiver_label(*entry),
{
    match &entry.display_name {
        Some(name) => name.clone(),
        None => entry.receiver_id.clone(),
    }
}

/// A playback target's entry: the name, and the host in brackets if known.
pub fn build_target_label(entry: &TrayReceiverEntry) -> (r: String)
    ensures
        entry.host@.len() == 0 ==> r@ == receiver_label(*entry),
        entry.host@.len() > 0 ==> r@ == receiver_label(*entry) + " ("@ + entry.host@ + ")"@,
{
    let mut r = tray_receiver_label(entry);
    if entry.host.unicode_len() > 0 {
        push_str(&mut r, " (");
        push_str(&mut r, entry.host.as_str());
        push_str(&mut r, ")");
    }
    r
}

/// A pairing entry: the name, marked when a pairing is stored.
pub fn build_pair_label(entry: &TrayReceiverEntry, i18n: TrayI18n) -> (r: String)
    ensures
        !entry.is_paired ==> r@ == receiver_label(*entry),
        entry.is_paired ==> r@ == receiver_label(*entry) + " ("@ + tray_text(i18n.locale, TrayText::PairedSuffix) + ")"@,
{
    let mut r = tray_receiver_label(entry);
    if entry.is_paired {
        push_str(&mut r, " (");
        push_str(&mut r, i18n.text(TrayText::PairedSuffix));
        push_str(&mut r, ")");
    }
    r
}

/// What the tray shows and offers at one moment.
#[derive(Debug, Clone, PartialEq, Eq)]
pub struct TraySnapshot {
    pub phase: TrayPhase,
    pub receivers: Vec<TrayReceiverEntry>,
    pub language: TrayLanguagePreference,
    pub auto_reconnect: bool,
}

/// The label of the receiver `id` in `receivers`, or `id` itself.
pub open spec fn receiver_label_or_id(receivers: Seq<TrayReceiverEntry>, id: Seq<char>) -> Seq<char>
    decreases receivers.len(),
{
    if receivers.len() == 0 {
        id
    } else if receivers[0].receiver_id@ == id {
        receiver_label(receivers[0])
    } else {
        receiver_label_or_id(receivers.skip(1), id)
    }
}

/// The status line of the tray menu.
pub open spec fn status_text(snapshot: TraySnapshot, locale: TrayLocale) -> Seq<char> {
    match snapshot.phase {
        TrayPhase::Idle => tray_text(locale, TrayText::StatusIdle),
        TrayPhase::WaitingForPin { receiver_id } => tray_text(locale, TrayText::StatusWaitingForPin) + " - "@
            + receiver_label_or_id(snapshot.receivers@, receiver_id@),
        TrayPhase::Streaming { receiver_ids } => tray_text(locale, TrayText::StatusStreamingToDevices) + " "@
            + decimal(receiver_ids@.len()) + " device(s)"@,
        TrayPhase::Reconnecting { receiver_ids, .. } => tray_text(locale, TrayText::StatusStreamingToDevices)
            + " "@ + decimal(receiver_ids@.len()) + " device(s)"@,
    }
}

/// The status line of the tray menu for `snapshot` in the language of
/// `i18n`.
pub fn format_status(snapshot: &TraySnapshot, i18n: TrayI18n) -> (r: String)
    ensures
        r@ == status_text(*snapshot, i18n.locale),
{
    match &snapshot.phase {
        TrayPhase::Idle => String::from_str(i18n.text(TrayText::StatusIdle)),
        TrayPhase::WaitingForPin { receiver_id } => {
            let mut i: usize = 0;
            let mut label: Option<String> = None;
            assert(snapshot.receivers@.skip(0) =~= snapshot.receivers@);
            while i < snapshot.receivers.len() && label.is_none()
                invariant
                    i <= snapshot.receivers@.len(),
                    label is None ==> receiver_label_or_id(snapshot.receivers@, receiver_id@)
                        == receiver_label_or_id(snapshot.receivers@.skip(i as int), receiver_id@),
                    label matches Some(l) ==> l@ == receiver_label_or_id(snapshot.receivers@, receiver_id@),
                decreases snapshot.receivers@.len() - i,
            {
                assert(snapshot.receivers@.skip(i as int).skip(1) =~= snapshot.receivers@.skip(i + 1));
                if str_eq(snapshot.receivers[i].receiver_id.as_str(), receiver_id.as_str()) {
                    label = Some(tray_receiver_label(&snapshot.receivers[i]));
                }
                i = i + 1;
            }
            let label = match label {
                Some(l) => l,
                None => {
                    assert(snapshot.receivers@.skip(i as int).len() == 0);
                    receiver_id.clone()
                },
            };
            i18n.status_waiting_for_pin(label.as_str())
        },
        TrayPhase::Streaming { receiver_ids } => i18n.status_streaming_to_devices(receiver_ids.len()),
        TrayPhase::Reconnecting { receiver_ids, .. } => i18n.status_streaming_to_devices(receiver_ids.len()),
    }
}

/// Which tray actions are offered in a snapshot: refresh unless a PIN is
/// awaited, start with a target selected and neither streaming nor
/// awaiting a PIN, stop while streaming.
pub open spec fn menu_flags(snapshot: TraySnapshot) -> (bool, bool, bool) {
    let streaming = snapshot.phase is Streaming;
    let waiting = snapshot.phase is WaitingForPin;
    let any_selected = exists|i: int| 0 <= i < snapshot.receivers@.len() && #[trigger] snapshot.receivers@[i].is_selected;
    (!waiting, !streaming && !waiting && any_selected, streaming)
}

/// The refresh, start and stop switches of the tray menu.
pub fn snapshot_menu_flags(snapshot: &TraySnapshot) -> (r: (bool, bool, bool))
    ensures
        r == menu_flags(*snapshot),
{
    let streaming = match snapshot.phase {
        TrayPhase::Streaming { .. } => true,
        _ => false,
    };
    let waiting = match snapshot.phase {
        TrayPhase::WaitingForPin { .. } => true,
        _ => false,
    };
    let mut any_selected = false;
    let mut i: usize = 0;
    while i < snapshot.receivers.len()
        invariant
            i <= snapshot.receivers@.len(),
            any_selected == exists|j: int| 0 <= j < i && #[trigger] snapshot.receivers@[j].is_selected,
        decreases snapshot.receivers@.len() - i,
    {
        if snapshot.receivers[i].is_selected {
            any_selected = true;
        }
        i = i + 1;
    }
    (!waiting, !streaming && !waiting && any_selected, streaming)
}

// ---------------------------------------------------------------------------
// Menu actions

pub const MENU_ID_REFRESH: &'static str = "refresh";
pub const MENU_ID_START_STREAMING: &'static str = "start-streaming";
pub const MENU_ID_STOP_STREAMING: &'static str = "stop-streaming";
pub const MENU_ID_START_AT_LOGIN: &'static str = "start-at-login";
pub const MENU_ID_LANGUAGE_SYSTEM: &'static str = "language:system";
pub const MENU_ID_LANGUAGE_EN_US: &'static str = "language:en-us";
pub const MENU_ID_LANGUAGE_ZH_CN: &'static str = "language:zh-cn";
pub const MENU_ID_QUIT: &'static str = "quit";
pub const MENU_ID_TARGET_PREFIX: &'static str = "target:";
pub const MENU_ID_PAIR_PREFIX: &'static str = "pair:";
pub const MENU_ID_FORGET_PREFIX: &'static str = "forget:";

/// What a click on a tray menu entry asks for.
#[derive(Debug, Clone, PartialEq, Eq)]
pub enum MenuAction {
    Refresh,
    StartStreaming,
    StopStreaming,
    ToggleStartAtLogin,
    SetLanguage(TrayLanguagePreference),
    Quit,
    ToggleReceiver { receiver_id: String },
    RequestPairing { receiver_id: String },
    ForgetPairing { receiver_id: String },
}

/// The action behind a menu entry id, the fixed ids first, then the
/// `target:`, `pair:` and `forget:` ids with the receiver id after the
/// prefix.
pub open spec fn menu_action_for(id: Seq<char>, r: Option<MenuAction>) -> bool {
    if id == "refresh"@ {
        r == Some(MenuAction::Refresh)
    } else if id == "start-streaming"@ {
        r == Some(MenuAction::StartStreaming)
    } else if id == "stop-streaming"@ {
        r == Some(MenuAction::StopStreaming)
    } else if id == "start-at-login"@ {
        r == Some(MenuAction::ToggleStartAtLogin)
    } else if id == "language:system"@ {
        r == Some(MenuAction::SetLanguage(TrayLanguagePreference::System))
    } else if id == "language:en-us"@ {
        r == Some(MenuAction::SetLanguage(TrayLanguagePreference::EnUs))
    } else if id == "language:zh-cn"@ {
        r == Some(MenuAction::SetLanguage(TrayLanguagePreference::ZhCn))
    } else if id == "quit"@ {
        r == Some(MenuAction::Quit)
    } else if has_prefix(id, "target:"@) {
        r matches Some(MenuAction::ToggleReceiver { receiver_id }) && receiver_id@ == id.skip("target:"@.len() as int)
    } else if has_prefix(id, "pair:"@) {
        r matches Some(MenuAction::RequestPairing { receiver_id }) && receiver_id@ == id.skip("pair:"@.len() as int)
    } else if has_prefix(id, "forget:"@) {
        r matches Some(MenuAction::ForgetPairing { receiver_id }) && receiver_id@ == id.skip("forget:"@.len() as int)
    } else {
        r is None
    }
}

/// The rest of `v` after the prefix `p`, when `v` starts with it.
fn strip_prefix_chars(v: &Vec<char>, p: &str) -> (r: Option<String>)
    ensures
        has_prefix(v@, p@) ==> (r matches Some(s) && s@ == v@.skip(p@.len() as int)),
        !has_prefix(v@, p@) ==> r is None,
{
    if starts_with_chars(v, p) {
        let n = p.unicode_len();
        let s = string_from_range(v, n, v.len());
        assert(v@.subrange(n as int, v@.len() as int) =~= v@.skip(p@.len() as int));
        Some(s)
    } else {
        None
    }
}

/// The action behind a tray menu entry id.
pub fn parse_menu_action(menu_id: &str) -> (r: Option<MenuAction>)
    ensures
        menu_action_for(menu_id@, r),
{
    let v = str_chars(menu_id);
    if chars_are(&v, MENU_ID_REFRESH) {
        return Some(MenuAction::Refresh);
    }
    if chars_are(&v, MENU_ID_START_STREAMING) {
        return Some(MenuAction::StartStreaming);
    }
    if chars_are(&v, MENU_ID_STOP_STREAMING) {
        return Some(MenuAction::StopStreaming);
    }
    if chars_are(&v, MENU_ID_START_AT_LOGIN) {
        return Some(MenuAction::ToggleStartAtLogin);
    }
    if chars_are(&v, MENU_ID_LANGUAGE_SYSTEM) {
        return Some(MenuAction::SetLanguage(TrayLanguagePreference::System));
    }
    if chars_are(&v, MENU_ID_LANGUAGE_EN_US) {
        return Some(MenuAction::SetLanguage(TrayLanguagePreference::EnUs));
    }
    if chars_are(&v, MENU_ID_LANGUAGE_ZH_CN) {
        return Some(MenuAction::SetLanguage(TrayLanguagePreference::ZhCn));
    }
    if chars_are(&v, MENU_ID_QUIT) {
        return Some(MenuAction::Quit);
    }
    if let Some(receiver_id) = strip_prefix_chars(&v, MENU_ID_TARGET_PREFIX) {
        return Some(MenuAction::ToggleReceiver { receiver_id });
    }
    if let Some(receiver_id) = strip_prefix_chars(&v, MENU_ID_PAIR_PREFIX) {
        return Some(MenuAction::RequestPairing { receiver_id });
    }
    if let Some(receiver_id) = strip_prefix_chars(&v, MENU_ID_FORGET_PREFIX) {
        return Some(MenuAction::ForgetPairing { receiver_id });
    }
    None
}

/// `value` made safe inside a single-quoted PowerShell string: each `'`
/// doubled.
pub open spec fn single_quote_escaped(s: Seq<char>) -> Seq<char>
    decreases s.len(),
{
    if s.len() == 0 {
        Seq::empty()
    } else {
        single_quote_escaped(s.drop_last()) + if s.last() == '\'' { seq!['\'', '\''] } else { seq![s.last()] }
    }
}

/// `value` with each `'` doubled.
pub fn powershell_single_quoted(value: &str) -> (r: String)
    ensures
        r@ == single_quote_escaped(value@),
{
    let v = str_chars(value);
    let mut r = String::new();
    let mut i: usize = 0;
    while i < v.len()
        invariant
            v@ == value@,
            i <= v@.len(),
            r@ == single_quote_escaped(v@.take(i as int)),
        decreases v@.len() - i,
    {
        assert(v@.take(i + 1).drop_last() =~= v@.take(i as int));
        if v[i] == '\'' {
            r.push('\'');
            r.push('\'');
        } else {
            r.push(v[i]);
        }
        i = i + 1;
        assert(r@ =~= single_quote_escaped(v@.take(i as int)));
    }
    assert(v@.take(v@.len() as int) =~= v@);
    r
}

// ---------------------------------------------------------------------------
// About box, icon, platforms without a tray

/// The text of the about box.
pub fn format_about_message(version: &str, commit_hash: &str) -> (r: String)
    ensures
        r@ == "Rairstream\n版本："@ + version@ + "\n提交："@ + commit_hash@,
{
    let mut r = String::from_str("Rairstream\n版本：");
    push_str(&mut r, version);
    push_str(&mut r, "\n提交：");
    push_str(&mut r, commit_hash);
    r
}

/// The colour of pixel (`x`, `y`) of the 16×16 tray icon: a light blue
/// border around a dark blue square, fully opaque.
pub open spec fn icon_pixel(x: int, y: int) -> Seq<u8> {
    if x == 0 || y == 0 || x == 15 || y == 15 {
        seq![30u8, 144u8, 255u8, 255u8]
    } else {
        seq![16u8, 78u8, 139u8, 255u8]
    }
}

/// The RGBA bytes of the 16×16 tray icon, row by row.
pub fn icon_rgba() -> (r: Vec<u8>)
    ensures
        r@.len() == 16 * 16 * 4,
        forall|y: int, x: int, c: int|
            0 <= y < 16 && 0 <= x < 16 && 0 <= c < 4 ==> #[trigger] r@[(y * 16 + x) * 4 + c] == icon_pixel(x, y)[c],
{
    let mut rgba: Vec<u8> = Vec::new();
    let mut y: usize = 0;
    while y < 16
        invariant
            y <= 16,
            rgba@.len() == y * 64,
            forall|yy: int, x: int, c: int|
                0 <= yy < y && 0 <= x < 16 && 0 <= c < 4 ==> #[trigger] rgba@[(yy * 16 + x) * 4 + c] == icon_pixel(x, yy)[c],
        decreases 16 - y,
    {
        let mut x: usize = 0;
        while x < 16
            invariant
                y < 16,
                x <= 16,
                rgba@.len() == y * 64 + x * 4,
                forall|yy: int, xx: int, c: int|
                    0 <= yy < y && 0 <= xx < 16 && 0 <= c < 4 ==> #[trigger] rgba@[(yy * 16 + xx) * 4 + c] == icon_pixel(xx, yy)[c],
                forall|xx: int, c: int|
                    0 <= xx < x && 0 <= c < 4 ==> #[trigger] rgba@[(y * 16 + xx) * 4 + c] == icon_pixel(xx, y as int)[c],
            decreases 16 - x,
        {
            let border = x == 0 || y == 0 || x == 15 || y == 15;
            let (red, green, blue, alpha): (u8, u8, u8, u8) = if border {
                (30, 144, 255, 255)
            } else {
                (16, 78, 139, 255)
            };
            let ghost before = rgba@;
            rgba.push(red);
            rgba.push(green);
            rgba.push(blue);
            rgba.push(alpha);
            assert forall|xx: int, c: int| 0 <= xx < x + 1 && 0 <= c < 4 implies #[trigger] rgba@[(y * 16 + xx) * 4 + c]
                == icon_pixel(xx, y as int)[c] by {
                if xx < x {
                    assert(rgba@[(y * 16 + xx) * 4 + c] == before[(y * 16 + xx) * 4 + c]);
                }
            }
            assert forall|yy: int, xx: int, c: int| 0 <= yy < y && 0 <= xx < 16 && 0 <= c < 4 implies #[trigger] rgba@[(yy
                * 16 + xx) * 4 + c] == icon_pixel(xx, yy)[c] by {
                assert(rgba@[(yy * 16 + xx) * 4 + c] == before[(yy * 16 + xx) * 4 + c]);
            }
            x = x + 1;
        }
        y = y + 1;
    }
    rgba
}

/// On platforms without a tray the tray cannot run: the error names the
/// missing feature.
pub fn run(os: &str) -> (r: Result<(), String>)
    ensures
        r matches Err(m) && m@ == "功能尚未实现: "@ + "system tray"@,
{
    let e = RairstreamError::UnsupportedPlatform { os: String::from_str(os), feature: String::from_str("system tray") };
    Err(e.describe())
}

} // verus!
