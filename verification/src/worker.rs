//! The synchronisation worker: one polling pass against the upstream
//! server, the settings that steer the loop, and what follows a pass.

use vstd::prelude::*;
use vstd::string::StringExecFns;

use crate::client::AuthClient;
use crate::error::SyncError;
use crate::model::Item;
use crate::model::ItemToCreate;
use crate::model::ItemToCreateView;
use crate::source::credentials_of;
use crate::source::worker_source;
use crate::source::Source;
use crate::text::decimal_digits;
use crate::text::parse_u64;
use crate::text::parsed_u64;
use crate::text::same_text;
use crate::text::slice_of;
use crate::text::text_of;
use crate::text::unsigned_decimal;
use crate::time::Timestamp;
use crate::watermark::returned;
use crate::watermark::sync_tick;
use crate::watermark::tick_advance;
use crate::watermark::tick_items;
use crate::watermark::TickOutcome;

verus! {

/// The name of the signal that tells the interface to refresh.
pub const FEED_UPDATED: &'static str = "feed_updated";

/// The pause between two passes where none is configured, in seconds.
pub const DEFAULT_POLLING_SECONDS: u64 = 300;

/// The largest batch whose items are announced one by one.
pub const INDIVIDUAL_NOTICES: usize = 3;

/// What `regex::Regex::replace_all` returns for the expression compiled
/// from `pattern`, applied to `text` with `replacement`; `None` where
/// `regex::Regex::new` refuses the pattern.
pub uninterp spec fn regex_replacing(
    pattern: Seq<char>,
    text: Seq<char>,
    replacement: Seq<char>,
) -> Option<Seq<char>>;

/// Compiles `pattern` with `regex::Regex::new` and, where that succeeds,
/// calls `replace_all` on `text`. The contract only gives the result its
/// name.
#[verifier::external_body]
fn regex_replace_all(pattern: &str, text: &str, replacement: &str) -> (replaced: Option<String>)
    ensures
        text_of(replaced) == regex_replacing(pattern@, text@, replacement@),
{
    match regex::Regex::new(pattern) {
        Ok(expression) => Some(expression.replace_all(text, replacement).into_owned()),
        Err(_) => None,
    }
}

/// The watermark that the settings store holds: the timestamp that the
/// stored text writes, or none where nothing is stored or the text is no
/// RFC 3339 time.
pub open spec fn stored_mark(stored: Option<Seq<char>>) -> Option<Timestamp> {
    match stored {
        Some(text) => Timestamp::read(text),
        None => None,
    }
}

/// The text under which a watermark is stored, if it can be written.
pub open spec fn mark_text(mark: Option<Timestamp>) -> Option<Seq<char>> {
    match mark {
        Some(time) => time.written(),
        None => None,
    }
}

/// Reads the stored watermark.
pub fn last_sync_time(stored: Option<&str>) -> (mark: Option<Timestamp>)
    ensures
        mark == stored_mark(slice_of(stored)),
{
    match stored {
        Some(text) => Timestamp::parse_rfc3339(text),
        None => None,
    }
}

/// What one pass against the upstream server found, and what it stores.
#[derive(Debug, Clone, PartialEq, Eq)]
pub struct TickReport {
    /// The new items and the timestamp to which the watermark advances.
    pub outcome: TickOutcome,
    /// The text to store as the new watermark, or `None` where the stored
    /// one stays.
    pub store: Option<String>,
}

/// One pass in upstream mode, from the stored watermark and the outcome of
/// the read of all unread items.
///
/// The items published strictly after the stored watermark are reported,
/// all of them where none is stored. If there are any, the watermark moves
/// to the latest publication time of the whole batch, and its RFC 3339 text
/// is handed back to be stored. A failed read reports nothing and stores
/// nothing.
pub fn worker_using_upstream(
    stored: Option<&str>,
    fetched: &Result<Vec<Item>, SyncError>,
) -> (report: TickReport)
    ensures
        report.outcome.new_items.deep_view() == tick_items(
            stored_mark(slice_of(stored)),
            returned(*fetched),
        ),
        report.outcome.advance == tick_advance(stored_mark(slice_of(stored)), returned(*fetched)),
        text_of(report.store) == mark_text(report.outcome.advance),
{
    let watermark = last_sync_time(stored);
    let outcome = sync_tick(watermark, fetched);
    let store = match outcome.advance {
        Some(mark) => mark.to_rfc3339(),
        None => None,
    };
    TickReport { outcome, store }
}

/// The batch of a pass in local mode: what the local producer inserted, or
/// nothing where it failed.
pub fn worker_using_local<E>(inserted: Result<Vec<ItemToCreate>, E>) -> (batch: Vec<ItemToCreate>)
    ensures
        inserted matches Ok(items) ==> batch == items,
        inserted is Err ==> batch@.len() == 0,
{
    match inserted {
        Ok(items) => items,
        Err(_) => Vec::new(),
    }
}

/// The pause between two passes, in seconds: the stored number, or 300
/// where nothing is stored or the text is no unsigned decimal number.
pub open spec fn polling_seconds(stored: Option<Seq<char>>) -> u64 {
    match stored {
        Some(text) => match parsed_u64(text) {
            Some(seconds) => seconds,
            None => 300,
        },
        None => 300,
    }
}

/// Reads the polling interval from its stored text.
pub fn polling_frequency(stored: Option<&str>) -> (seconds: u64)
    ensures
        seconds == polling_seconds(slice_of(stored)),
{
    match stored {
        Some(text) => match parse_u64(text) {
            Some(seconds) => seconds,
            None => DEFAULT_POLLING_SECONDS,
        },
        None => DEFAULT_POLLING_SECONDS,
    }
}

/// Whether notifications are switched on: they are, unless the stored text
/// is exactly `false`.
pub open spec fn notification_enabled(stored: Option<Seq<char>>) -> bool {
    stored != Some("false"@)
}

/// Reads the notification preference from its stored text.
pub fn notification(stored: Option<&str>) -> (enabled: bool)
    ensures
        enabled == notification_enabled(slice_of(stored)),
{
    match stored {
        Some(text) => !same_text(text, "false"),
        None => true,
    }
}

/// A desktop notification.
#[derive(Debug, Clone, PartialEq, Eq)]
pub struct Notice {
    pub title: String,
    pub body: String,
}

/// The mathematical value of a [`Notice`].
pub struct NoticeView {
    pub title: Seq<char>,
    pub body: Seq<char>,
}

impl View for Notice {
    type V = NoticeView;

    open spec fn view(&self) -> NoticeView {
        NoticeView { title: self.title@, body: self.body@ }
    }
}

impl DeepView for Notice {
    type V = NoticeView;

    open spec fn deep_view(&self) -> NoticeView {
        self@
    }
}

/// A description with what `replaced` holds in place of it, or as it is
/// where there is no replacement.
pub open spec fn replaced_or(description: Seq<char>, replaced: Option<Seq<char>>) -> Seq<char> {
    match replaced {
        Some(text) => text,
        None => description,
    }
}

/// A description without its markup: every match of `<.*?>` is taken out.
pub open spec fn stripped(description: Seq<char>) -> Seq<char> {
    replaced_or(description, regex_replacing("<.*?>"@, description, ""@))
}

/// The notification of one item: its title, and its description without
/// markup.
pub open spec fn item_notice(item: ItemToCreateView) -> NoticeView {
    NoticeView { title: item.title, body: stripped(item.description) }
}

/// The notification that stands for a batch of `count` items.
pub open spec fn summary_notice(count: nat) -> NoticeView {
    NoticeView {
        title: "New items arrived"@,
        body: "There are "@ + decimal_digits(count) + " items to read"@,
    }
}

/// The notifications of a batch: one for each item of a batch of at most
/// three, in their order, and a single summary for a larger one.
pub open spec fn notices(batch: Seq<ItemToCreateView>) -> Seq<NoticeView> {
    if batch.len() <= 3 {
        batch.map_values(|item: ItemToCreateView| item_notice(item))
    } else {
        seq![summary_notice(batch.len())]
    }
}

/// Chooses between a description and what took the place of it.
pub fn markup_free(description: &str, replaced: Option<String>) -> (body: String)
    ensures
        body@ == replaced_or(description@, text_of(replaced)),
{
    match replaced {
        Some(text) => text,
        None => description.to_owned(),
    }
}

/// Takes the markup out of a description.
pub fn strip_markup(description: &str) -> (body: String)
    ensures
        body@ == stripped(description@),
{
    markup_free(description, regex_replace_all("<.*?>", description, ""))
}

/// Makes the summary notification of a batch of `count` items.
pub fn summarize(count: usize) -> (notice: Notice)
    ensures
        notice@ == summary_notice(count as nat),
{
    let body = "There are ".to_owned().concat(unsigned_decimal(count as u64).as_str()).concat(
        " items to read",
    );
    Notice { title: "New items arrived".to_owned(), body }
}

/// Makes the notifications of a batch of new items.
pub fn notify(batch: &Vec<ItemToCreate>) -> (shown: Vec<Notice>)
    ensures
        shown.deep_view() == notices(batch.deep_view()),
{
    let mut shown: Vec<Notice> = Vec::new();
    if batch.len() <= INDIVIDUAL_NOTICES {
        let ghost all = batch.deep_view();
        let mut i: usize = 0;
        while i < batch.len()
            invariant
                i <= batch.len(),
                all == batch.deep_view(),
                all.len() == batch.len(),
                shown.deep_view() == all.take(i as int).map_values(
                    |item: ItemToCreateView| item_notice(item),
                ),
            decreases batch.len() - i,
        {
            let item = &batch[i];
            let notice = Notice {
                title: item.title.clone(),
                body: strip_markup(item.description.as_str()),
            };
            let ghost before = shown.deep_view();
            shown.push(notice);
            assert(shown.deep_view() =~= before.push(item_notice(item@)));
            assert(all.take(i + 1) =~= all.take(i as int).push(item@));
            i += 1;
        }
        assert(all.take(batch.len() as int) =~= all);
    } else {
        shown.push(summarize(batch.len()));
        assert(shown.deep_view() =~= seq![summary_notice(batch.len() as nat)]);
    }
    shown
}

/// Chooses the worker's source, once, when it starts: the upstream server
/// where both its URL and credentials are configured, else the local store.
pub fn start(
    upstream_url: Option<String>,
    upstream_credentials: Option<(String, String)>,
) -> (source: Source)
    ensures
        source@ == worker_source(text_of(upstream_url), credentials_of(upstream_credentials)),
{
    match upstream_url {
        Some(url) => match upstream_credentials {
            Some((access, secret)) => Source::Upstream(AuthClient::new(url, access, secret)),
            None => Source::Local,
        },
        None => Source::Local,
    }
}

/// What the worker does after a pass.
#[derive(Debug, Clone, PartialEq, Eq)]
pub enum Effect {
    /// Fire the signal that tells the interface to refresh.
    Refresh,
    /// Show this notification.
    Notify(Notice),
    /// Wait for this many seconds, then make the next pass.
    Sleep(u64),
}

/// The mathematical value of an [`Effect`].
pub enum EffectView {
    Refresh,
    Notify(NoticeView),
    Sleep(u64),
}

impl View for Effect {
    type V = EffectView;

    open spec fn view(&self) -> EffectView {
        match *self {
            Effect::Refresh => EffectView::Refresh,
            Effect::Notify(notice) => EffectView::Notify(notice@),
            Effect::Sleep(seconds) => EffectView::Sleep(seconds),
        }
    }
}

impl DeepView for Effect {
    type V = EffectView;

    open spec fn deep_view(&self) -> EffectView {
        self@
    }
}

/// What a batch of new items sets off: nothing where it is empty; else the
/// refresh signal and, if notifications are switched on, the notifications
/// of the batch.
pub open spec fn announcements(batch: Seq<ItemToCreateView>, notifications: bool) -> Seq<
    EffectView,
> {
    if batch.len() == 0 {
        Seq::empty()
    } else if notifications {
        seq![EffectView::Refresh] + notices(batch).map_values(
            |notice: NoticeView| EffectView::Notify(notice),
        )
    } else {
        seq![EffectView::Refresh]
    }
}

/// What follows a pass, in order: the announcements of its batch, then the
/// pause before the next pass.
pub open spec fn effects(batch: Seq<ItemToCreateView>, notifications: bool, interval: u64) -> Seq<
    EffectView,
> {
    announcements(batch, notifications).push(EffectView::Sleep(interval))
}

/// Says what follows a pass that found `batch`. A pass that failed is one
/// that found nothing.
pub fn after_tick(batch: &Vec<ItemToCreate>, notifications: bool, interval: u64) -> (agenda: Vec<
    Effect,
>)
    ensures
        agenda.deep_view() == effects(batch.deep_view(), notifications, interval),
{
    let mut agenda: Vec<Effect> = Vec::new();
    let ghost wrap = |notice: NoticeView| EffectView::Notify(notice);
    assert(agenda.deep_view() =~= Seq::<EffectView>::empty());
    if batch.len() > 0 {
        agenda.push(Effect::Refresh);
        assert(agenda.deep_view() =~= seq![EffectView::Refresh]);
        if notifications {
            let shown = notify(batch);
            let ghost all = shown.deep_view();
            let mut i: usize = 0;
            while i < shown.len()
                invariant
                    i <= shown.len(),
                    all.len() == shown.len(),
                    wrap == (|notice: NoticeView| EffectView::Notify(notice)),
                    forall|j: int| i <= j < shown.len() ==> (#[trigger] shown[j])@ == all[j],
                    agenda.deep_view() == seq![EffectView::Refresh] + all.take(i as int).map_values(
                        wrap,
                    ),
                decreases shown.len() - i,
            {
                let ghost before = agenda.deep_view();
                let notice = Notice {
                    title: shown[i].title.clone(),
                    body: shown[i].body.clone(),
                };
                assert(notice@ == all[i as int]);
                agenda.push(Effect::Notify(notice));
                assert(agenda.deep_view() =~= before.push(EffectView::Notify(all[i as int])));
                assert(all.take(i + 1).map_values(wrap) =~= all.take(i as int).map_values(
                    wrap,
                ).push(EffectView::Notify(all[i as int])));
                i += 1;
            }
            assert(all.take(shown.len() as int) =~= all);
        }
    }
    let ghost before = agenda.deep_view();
    agenda.push(Effect::Sleep(interval));
    assert(agenda.deep_view() =~= before.push(EffectView::Sleep(interval)));
    agenda
}

/// Notification batching. A batch of at most three items is announced item
/// by item, a larger one by a single notification, and an empty one sets off
/// nothing at all: neither a refresh nor a notification.
pub proof fn lemma_notification_batching(batch: Seq<ItemToCreateView>, notifications: bool)
    ensures
        batch.len() <= 3 ==> notices(batch).len() == batch.len(),
        batch.len() > 3 ==> notices(batch).len() == 1,
        batch.len() == 0 ==> announcements(batch, notifications).len() == 0,
        batch.len() > 0 && notifications ==> announcements(batch, notifications).len() == 1
            + notices(batch).len(),
        batch.len() > 0 && !notifications ==> announcements(batch, notifications) == seq![
            EffectView::Refresh,
        ],
{
}

/// Whatever a pass found, and also where it failed, what follows it ends
/// with the pause before the next pass, and holds no other pause.
pub proof fn lemma_pass_ends_in_sleep(
    batch: Seq<ItemToCreateView>,
    notifications: bool,
    interval: u64,
)
    ensures
        effects(batch, notifications, interval).len() >= 1,
        effects(batch, notifications, interval).last() == EffectView::Sleep(interval),
        forall|i: int|
            0 <= i < effects(batch, notifications, interval).len() - 1 ==> !(#[trigger] effects(
                batch,
                notifications,
                interval,
            )[i] is Sleep),
        effects(Seq::empty(), notifications, interval) == seq![EffectView::Sleep(interval)],
{
    assert(effects(Seq::empty(), notifications, interval) =~= seq![EffectView::Sleep(interval)]);
}

} // verus!
