//! The podcast triage view's pure parts: the inbox-policy picker, the
//! refresh toast, the feed-freshness line and the empty-list copy.
use vstd::prelude::*;
use vstd::string::StringExecFns;

use crate::objects::{date_label, episode_duration, or_empty, EpisodeRow, PlayedState};
use crate::text::{dec, join, join_strings, push_dec, trim_text, trimmed, views};

verus! {

/// What happens to a show's new episodes.
#[derive(Debug, Clone, Copy, PartialEq, Eq, Structural)]
pub enum InboxPolicy {
    Inbox,
    AlwaysQueue,
    AlwaysArchive,
}

/// The picker index of an inbox policy (0 = Inbox, 1 = Queue, 2 = Archive).
pub open spec fn policy_index(policy: InboxPolicy) -> u32 {
    match policy {
        InboxPolicy::Inbox => 0,
        InboxPolicy::AlwaysQueue => 1,
        InboxPolicy::AlwaysArchive => 2,
    }
}

/// The inbox policy a picker index selects; any other index reads as Inbox.
pub open spec fn policy_at(index: u32) -> InboxPolicy {
    if index == 1 {
        InboxPolicy::AlwaysQueue
    } else if index == 2 {
        InboxPolicy::AlwaysArchive
    } else {
        InboxPolicy::Inbox
    }
}

/// The picker index for an inbox policy (0 = Inbox, 1 = Queue, 2 = Archive).
pub fn inbox_policy_index(policy: InboxPolicy) -> (r: u32)
    ensures
        r == policy_index(policy),
{
    match policy {
        InboxPolicy::Inbox => 0,
        InboxPolicy::AlwaysQueue => 1,
        InboxPolicy::AlwaysArchive => 2,
    }
}

/// The inbox policy for a picker index; an out-of-range index degrades to
/// Inbox (the schema default).
pub fn inbox_policy_from_index(index: u32) -> (r: InboxPolicy)
    ensures
        r == policy_at(index),
{
    match index {
        1 => InboxPolicy::AlwaysQueue,
        2 => InboxPolicy::AlwaysArchive,
        _ => InboxPolicy::Inbox,
    }
}

/// The picker round-trips: reading back the index shown for a policy gives
/// that policy.
pub proof fn law_inbox_policy_round_trips(policy: InboxPolicy)
    ensures
        policy_at(policy_index(policy)) == policy,
{
}

/// A show's playback and triage settings.
#[derive(Debug, Clone, Copy, PartialEq, Eq, Structural)]
pub struct ShowSettings {
    pub show_id: i64,
    /// The playback speed in thousandths (1000 plays at normal speed).
    pub playback_speed_milli: u32,
    pub smart_speed: bool,
    pub voice_boost: bool,
    /// Seconds skipped at the start of each episode.
    pub skip_intro: u32,
    /// Seconds skipped at the end of each episode.
    pub skip_outro: u32,
    /// The forward skip in seconds; absent inherits the global setting.
    pub skip_forward: Option<u32>,
    /// The back skip in seconds; absent inherits the global setting.
    pub skip_back: Option<u32>,
    pub inbox_policy: InboxPolicy,
}

/// The schema defaults for a show with no stored settings: normal speed,
/// smart speed on, voice boost off, no intro or outro skip, the global skip
/// lengths, new episodes to the Inbox.
pub fn default_settings(show_id: i64) -> (r: ShowSettings)
    ensures
        r == (ShowSettings {
            show_id,
            playback_speed_milli: 1000,
            smart_speed: true,
            voice_boost: false,
            skip_intro: 0,
            skip_outro: 0,
            skip_forward: None,
            skip_back: None,
            inbox_policy: InboxPolicy::Inbox,
        }),
{
    ShowSettings {
        show_id,
        playback_speed_milli: 1000,
        smart_speed: true,
        voice_boost: false,
        skip_intro: 0,
        skip_outro: 0,
        skip_forward: None,
        skip_back: None,
        inbox_policy: InboxPolicy::Inbox,
    }
}

/// The settings to persist from the settings dialog's fields. The dialog does
/// not show the forward and back skips (they inherit the global setting), so
/// they are carried over from `current` and a save never clobbers them.
pub fn settings_from_form(
    current: Option<&ShowSettings>,
    show_id: i64,
    speed_milli: u32,
    smart_speed: bool,
    voice_boost: bool,
    skip_intro: u32,
    skip_outro: u32,
    inbox_policy: InboxPolicy,
) -> (r: ShowSettings)
    ensures
        r == (ShowSettings {
            show_id,
            playback_speed_milli: speed_milli,
            smart_speed,
            voice_boost,
            skip_intro,
            skip_outro,
            skip_forward: match current {
                Some(c) => c.skip_forward,
                None => None,
            },
            skip_back: match current {
                Some(c) => c.skip_back,
                None => None,
            },
            inbox_policy,
        }),
{
    let (skip_forward, skip_back) = match current {
        Some(c) => (c.skip_forward, c.skip_back),
        None => (None, None),
    };
    ShowSettings {
        show_id,
        playback_speed_milli: speed_milli,
        smart_speed,
        voice_boost,
        skip_intro,
        skip_outro,
        skip_forward,
        skip_back,
        inbox_policy,
    }
}

/// How one show's refresh went.
#[derive(Debug, Clone)]
pub enum RefreshStatus {
    Updated { new: usize, total: usize },
    NotModified,
    Failed(String),
}

/// One show's refresh outcome.
#[derive(Debug, Clone)]
pub struct RefreshOutcome {
    pub show_title: String,
    pub status: RefreshStatus,
}

/// The new episodes a batch fetched.
pub open spec fn new_count(os: Seq<RefreshOutcome>) -> nat
    decreases os.len(),
{
    if os.len() == 0 {
        0
    } else {
        new_count(os.drop_last()) + match os.last().status {
            RefreshStatus::Updated { new, .. } => new as nat,
            _ => 0,
        }
    }
}

/// The shows of a batch whose refresh failed.
pub open spec fn failed_count(os: Seq<RefreshOutcome>) -> nat
    decreases os.len(),
{
    if os.len() == 0 {
        0
    } else {
        failed_count(os.drop_last()) + match os.last().status {
            RefreshStatus::Failed(_) => 1nat,
            _ => 0,
        }
    }
}

/// Whether a show's refresh failed.
pub open spec fn is_failure(o: RefreshOutcome) -> bool {
    o.status is Failed
}

/// The failed count of a batch is the number of its outcomes that failed,
/// each counted once.
pub proof fn law_failed_count_counts_failures(os: Seq<RefreshOutcome>)
    ensures
        failed_count(os) == os.filter(|o: RefreshOutcome| is_failure(o)).len(),
    decreases os.len(),
{
    reveal(Seq::filter);
    if os.len() > 0 {
        law_failed_count_counts_failures(os.drop_last());
    }
}

/// The toast line for a refresh batch.
pub open spec fn refresh_text(os: Seq<RefreshOutcome>) -> Seq<char> {
    if os.len() == 0 {
        "No subscriptions to refresh"@
    } else {
        let head = if os.len() == 1 {
            "Refreshed "@ + os[0].show_title@
        } else {
            "Refreshed "@ + dec(os.len()) + " shows"@
        };
        let n = new_count(os);
        let news = if n == 0 {
            ": no new episodes"@
        } else if n == 1 {
            ": 1 new episode"@
        } else {
            ": "@ + dec(n) + " new episodes"@
        };
        let f = failed_count(os);
        let fails = if f > 0 {
            " \u{2022} "@ + dec(f) + " failed"@
        } else {
            Seq::empty()
        };
        head + news + fails
    }
}

proof fn lemma_failed_count_bound(os: Seq<RefreshOutcome>)
    ensures
        failed_count(os) <= os.len(),
    decreases os.len(),
{
    if os.len() > 0 {
        lemma_failed_count_bound(os.drop_last());
    }
}

/// One toast line for a refresh batch: which shows (one by name, several by
/// count), how many new episodes, and how many failed.
pub fn summarize_refresh(outcomes: &[RefreshOutcome]) -> (r: String)
    requires
        new_count(outcomes@) <= usize::MAX,
    ensures
        r@ == refresh_text(outcomes@),
{
    if outcomes.len() == 0 {
        return String::from_str("No subscriptions to refresh");
    }
    let n = outcomes.len();
    let mut new_episodes: usize = 0;
    let mut failed: usize = 0;
    let mut i: usize = 0;
    while i < n
        invariant
            n == outcomes@.len(),
            i <= n,
            new_count(outcomes@) <= usize::MAX,
            new_episodes == new_count(outcomes@.take(i as int)),
            failed == failed_count(outcomes@.take(i as int)),
        decreases n - i,
    {
        let ghost t = outcomes@.take(i + 1);
        assert(t.drop_last() =~= outcomes@.take(i as int));
        proof {
            lemma_new_count_prefix(outcomes@, i + 1);
            lemma_failed_count_bound(t);
        }
        match &outcomes[i].status {
            RefreshStatus::Updated { new, .. } => {
                new_episodes = new_episodes + *new;
            },
            RefreshStatus::NotModified => {},
            RefreshStatus::Failed(_) => {
                failed = failed + 1;
            },
        }
        i += 1;
    }
    assert(outcomes@.take(n as int) =~= outcomes@);
    let mut out = String::from_str("Refreshed ");
    if n == 1 {
        out.append(outcomes[0].show_title.as_str());
    } else {
        push_dec(&mut out, n as u64);
        out.append(" shows");
    }
    if new_episodes == 0 {
        out.append(": no new episodes");
    } else if new_episodes == 1 {
        out.append(": 1 new episode");
    } else {
        out.append(": ");
        push_dec(&mut out, new_episodes as u64);
        out.append(" new episodes");
    }
    if failed > 0 {
        out.append(" \u{2022} ");
        push_dec(&mut out, failed as u64);
        out.append(" failed");
    }
    out
}

proof fn lemma_new_count_prefix(os: Seq<RefreshOutcome>, k: int)
    requires
        0 <= k <= os.len(),
    ensures
        new_count(os.take(k)) <= new_count(os),
    decreases os.len() - k,
{
    if k < os.len() {
        lemma_new_count_prefix(os, k + 1);
        assert(os.take(k + 1).drop_last() =~= os.take(k));
    } else {
        assert(os.take(k) =~= os);
    }
}

/// A UTC instant: whole seconds since the Unix epoch and the nanoseconds
/// within that second.
#[derive(Debug, Clone, Copy, PartialEq, Eq, Structural)]
pub struct Instant {
    pub secs: i64,
    pub nanos: u32,
}

/// `a / b` rounded toward zero (`b > 0`).
pub open spec fn div_toward_zero(a: int, b: int) -> int {
    if a >= 0 {
        a / b
    } else {
        -((-a) / b)
    }
}

/// The whole minutes from `last` to `now`, rounded toward zero.
pub open spec fn minutes_between(now: Instant, last: Instant) -> int {
    div_toward_zero(
        (now.secs - last.secs) * 1_000_000_000 + now.nanos - last.nanos,
        60_000_000_000,
    )
}

/// The feed-freshness line for a show last refreshed at `last`.
pub open spec fn freshness_text(now: Instant, last: Option<Instant>) -> Seq<char> {
    match last {
        None => "Never refreshed"@,
        Some(l) => {
            let m = minutes_between(now, l);
            if m < 1 {
                "Last refreshed just now"@
            } else if m < 60 {
                "Last refreshed "@ + dec(m as nat) + " min ago"@
            } else if m < 60 * 24 {
                "Last refreshed "@ + dec((m / 60) as nat) + " h ago"@
            } else {
                "Last refreshed "@ + dec((m / 1440) as nat) + " day(s) ago"@
            }
        },
    }
}

/// The show header's feed-freshness line: never, just now, minutes, hours
/// or days since the last refresh.
pub fn fmt_last_refreshed(now: Instant, last: Option<Instant>) -> (r: String)
    ensures
        r@ == freshness_text(now, last),
{
    let l = match last {
        Some(l) => l,
        None => return String::from_str("Never refreshed"),
    };
    let delta: i128 = ((now.secs as i128) - (l.secs as i128)) * 1_000_000_000 + (now.nanos as i128)
        - (l.nanos as i128);
    let m: i128 = if delta >= 0 {
        delta / 60_000_000_000
    } else {
        -((-delta) / 60_000_000_000)
    };
    assert(m == minutes_between(now, l));
    assert(m < 0x1_0000_0000_0000_0000) by (nonlinear_arith)
        requires
            m == div_toward_zero(delta as int, 60_000_000_000),
            delta < 0x1_0000_0000_0000_0000 * 1_000_000_000 + 0x1_0000_0000,
    ;
    if m < 1 {
        String::from_str("Last refreshed just now")
    } else if m < 60 {
        let mut s = String::from_str("Last refreshed ");
        push_dec(&mut s, m as u64);
        s.append(" min ago");
        s
    } else if m < 60 * 24 {
        let mut s = String::from_str("Last refreshed ");
        push_dec(&mut s, (m / 60) as u64);
        s.append(" h ago");
        s
    } else {
        let mut s = String::from_str("Last refreshed ");
        push_dec(&mut s, (m / (60 * 24)) as u64);
        s.append(" day(s) ago");
        s
    }
}

/// The triage buckets of the podcast sidebar.
#[derive(Debug, Clone, Copy, PartialEq, Eq, Structural)]
pub enum TriageBucket {
    Inbox,
    Queue,
    Played,
}

/// What the episode list is showing.
#[derive(Debug, Clone, Copy, PartialEq, Eq, Structural)]
pub enum Source {
    Bucket(TriageBucket),
    Show(i64),
    Tag(i64),
}

/// The per-source empty-list copy: what an empty episode list means depends
/// on what it is showing.
pub fn empty_copy(source: Source) -> (r: (&'static str, &'static str))
    ensures
        (r.0@, r.1@) == match source {
            Source::Bucket(TriageBucket::Inbox) => (
                "Inbox is empty"@,
                "New episodes land here when feeds refresh."@,
            ),
            Source::Bucket(TriageBucket::Queue) => (
                "Queue is empty"@,
                "Add episodes from the Inbox or a show (Ctrl+Enter appends)."@,
            ),
            Source::Bucket(TriageBucket::Played) => (
                "Nothing played yet"@,
                "Episodes you finish or archive land here."@,
            ),
            Source::Show(_) => ("No episodes"@, "Refresh to fetch this show's episodes."@),
            Source::Tag(_) => ("No episodes"@, "No episodes carry this tag."@),
        },
{
    match source {
        Source::Bucket(TriageBucket::Inbox) => (
            "Inbox is empty",
            "New episodes land here when feeds refresh.",
        ),
        Source::Bucket(TriageBucket::Queue) => (
            "Queue is empty",
            "Add episodes from the Inbox or a show (Ctrl+Enter appends).",
        ),
        Source::Bucket(TriageBucket::Played) => (
            "Nothing played yet",
            "Episodes you finish or archive land here.",
        ),
        Source::Show(_) => ("No episodes", "Refresh to fetch this show's episodes."),
        Source::Tag(_) => ("No episodes", "No episodes carry this tag."),
    }
}

/// The episode detail's subtitle: the show, then the date and the duration
/// where known, joined by a spaced bullet.
pub fn detail_subtitle(r: &EpisodeRow) -> (t: String)
    ensures
        t@ == join(
            seq![r.show_title@] + (if date_label(r.pub_date).len() > 0 {
                seq![date_label(r.pub_date)]
            } else {
                Seq::empty()
            }) + (if episode_duration(r.duration).len() > 0 {
                seq![episode_duration(r.duration)]
            } else {
                Seq::empty()
            }),
            "  \u{2022}  "@,
        ),
{
    let mut parts: Vec<String> = Vec::new();
    parts.push(r.show_title());
    let date = r.date_text();
    if !date.as_str().is_empty() {
        parts.push(date);
    }
    let dur = r.duration_text();
    let ghost dv = dur@;
    if !dur.as_str().is_empty() {
        parts.push(dur);
    }
    let t = join_strings(&parts, "  \u{2022}  ");
    assert(views(parts@) =~= seq![r.show_title@] + (if date@.len() > 0 {
        seq![date@]
    } else {
        Seq::empty()
    }) + (if dv.len() > 0 {
        seq![dv]
    } else {
        Seq::empty()
    }));
    t
}

/// The state the played toggle moves an episode to: a fully played episode
/// goes back to unplayed, anything else becomes fully played.
pub open spec fn toggled(state: PlayedState) -> PlayedState {
    if state == PlayedState::PlayedFully {
        PlayedState::Unplayed
    } else {
        PlayedState::PlayedFully
    }
}

/// The played toggle: a fully played episode goes back to unplayed, anything
/// else (unplayed, in progress, archived) becomes fully played.
pub fn toggle_played(state: PlayedState) -> (r: PlayedState)
    ensures
        r == toggled(state),
{
    match state {
        PlayedState::PlayedFully => PlayedState::Unplayed,
        _ => PlayedState::PlayedFully,
    }
}

/// Toggling twice from either end of the toggle returns where it started.
pub proof fn law_played_toggle_round_trips(state: PlayedState)
    requires
        state == PlayedState::Unplayed || state == PlayedState::PlayedFully,
    ensures
        toggled(toggled(state)) == state,
{
}

/// When a played-state write is stamped: a fully played episode records
/// `now`, every other state clears the time.
pub fn played_at(state: PlayedState, now: i64) -> (r: Option<i64>)
    ensures
        r == (if state == PlayedState::PlayedFully {
            Some(now)
        } else {
            None
        }),
{
    if state == PlayedState::PlayedFully {
        Some(now)
    } else {
        None
    }
}

/// What the episode detail pane shows: a heading, a subtitle, the notes,
/// whether the episode actions are enabled, and the labels of the played
/// and star buttons (absent: leave the buttons as they are).
#[derive(Debug, Clone)]
pub struct EpisodeDetail {
    pub title: String,
    pub subtitle: String,
    pub notes: String,
    pub actions: bool,
    pub played_label: Option<&'static str>,
    pub star_label: Option<&'static str>,
}

/// The episode's notes, or a placeholder when they are blank.
pub open spec fn notes_text(r: &EpisodeRow) -> Seq<char> {
    if trimmed(or_empty(r.description)).len() == 0 {
        "No show notes."@
    } else {
        or_empty(r.description)
    }
}

/// The detail pane for the selected episode, or, with none selected, for
/// the list's header: the header title, the feed-freshness line when the
/// list is a show (blank otherwise), and a prompt to pick an episode.
pub fn episode_detail(
    row: Option<&EpisodeRow>,
    header_title: &str,
    source: Source,
    now: Instant,
    last_fetched: Option<Instant>,
) -> (d: EpisodeDetail)
    ensures
        match row {
            Some(r) => {
                &&& d.title@ == r.title@
                &&& d.subtitle@ == join(
                    seq![r.show_title@] + (if date_label(r.pub_date).len() > 0 {
                        seq![date_label(r.pub_date)]
                    } else {
                        Seq::empty()
                    }) + (if episode_duration(r.duration).len() > 0 {
                        seq![episode_duration(r.duration)]
                    } else {
                        Seq::empty()
                    }),
                    "  \u{2022}  "@,
                )
                &&& d.notes@ == notes_text(r)
                &&& d.actions
                &&& d.played_label == Some(
                    if r.played == PlayedState::PlayedFully {
                        "Mark unplayed"
                    } else {
                        "Mark played"
                    },
                )
                &&& d.star_label == Some(
                    if r.starred {
                        "Unstar"
                    } else {
                        "Star"
                    },
                )
            },
            None => {
                &&& d.title@ == header_title@
                &&& d.subtitle@ == (if source is Show {
                    freshness_text(now, last_fetched)
                } else {
                    Seq::empty()
                })
                &&& d.notes@ == "Select an episode to read its notes."@
                &&& !d.actions
                &&& d.played_label is None
                &&& d.star_label is None
            },
        },
{
    match row {
        Some(r) => {
            let desc = r.description();
            let notes = if trim_text(desc.as_str()).as_str().is_empty() {
                String::from_str("No show notes.")
            } else {
                desc
            };
            EpisodeDetail {
                title: r.title(),
                subtitle: detail_subtitle(r),
                notes,
                actions: true,
                played_label: Some(
                    if r.played == PlayedState::PlayedFully {
                        "Mark unplayed"
                    } else {
                        "Mark played"
                    },
                ),
                star_label: Some(
                    if r.starred {
                        "Unstar"
                    } else {
                        "Star"
                    },
                ),
            }
        },
        None => {
            let subtitle = match source {
                Source::Show(_) => fmt_last_refreshed(now, last_fetched),
                _ => String::new(),
            };
            EpisodeDetail {
                title: String::from_str(header_title),
                subtitle,
                notes: String::from_str("Select an episode to read its notes."),
                actions: false,
                played_label: None,
                star_label: None,
            }
        },
    }
}

/// The podcast sidebar's rows, top to bottom: a header (`None`) then the
/// Inbox, Queue and Played buckets; then, when there are shows, a header and
/// one row per show; then, when there are tags, a header and one row per
/// tag.
pub open spec fn sidebar_layout(shows: Seq<i64>, tags: Seq<i64>) -> Seq<Option<Source>> {
    seq![
        None,
        Some(Source::Bucket(TriageBucket::Inbox)),
        Some(Source::Bucket(TriageBucket::Queue)),
        Some(Source::Bucket(TriageBucket::Played)),
    ] + (if shows.len() > 0 {
        seq![None] + shows.map_values(|id: i64| Some(Source::Show(id)))
    } else {
        Seq::empty()
    }) + (if tags.len() > 0 {
        seq![None] + tags.map_values(|id: i64| Some(Source::Tag(id)))
    } else {
        Seq::empty()
    })
}

fn push_section(out: &mut Vec<Option<Source>>, ids: &[i64], shows: bool)
    ensures
        final(out)@ == old(out)@ + (if ids@.len() > 0 {
            seq![None] + ids@.map_values(
                |id: i64|
                    if shows {
                        Some(Source::Show(id))
                    } else {
                        Some(Source::Tag(id))
                    },
            )
        } else {
            Seq::empty()
        }),
{
    let n = ids.len();
    if n == 0 {
        assert(final(out)@ =~= old(out)@ + Seq::<Option<Source>>::empty());
        return;
    }
    out.push(None);
    let mut i: usize = 0;
    while i < n
        invariant
            n == ids@.len(),
            i <= n,
            out@ == old(out)@ + seq![None] + ids@.take(i as int).map_values(
                |id: i64|
                    if shows {
                        Some(Source::Show(id))
                    } else {
                        Some(Source::Tag(id))
                    },
            ),
        decreases n - i,
    {
        let id = ids[i];
        out.push(
            if shows {
                Some(Source::Show(id))
            } else {
                Some(Source::Tag(id))
            },
        );
        assert(ids@.take(i + 1) =~= ids@.take(i as int).push(id));
        assert(out@ =~= old(out)@ + seq![None] + ids@.take(i + 1).map_values(
            |id: i64|
                if shows {
                    Some(Source::Show(id))
                } else {
                    Some(Source::Tag(id))
                },
        ));
        i += 1;
    }
    assert(ids@.take(n as int) =~= ids@);
}

/// The podcast sidebar's rows for the given shows and tags: `None` marks a
/// section header.
pub fn sidebar_sources(shows: &[i64], tags: &[i64]) -> (r: Vec<Option<Source>>)
    ensures
        r@ == sidebar_layout(shows@, tags@),
{
    let mut out: Vec<Option<Source>> = Vec::new();
    out.push(None);
    out.push(Some(Source::Bucket(TriageBucket::Inbox)));
    out.push(Some(Source::Bucket(TriageBucket::Queue)));
    out.push(Some(Source::Bucket(TriageBucket::Played)));
    push_section(&mut out, shows, true);
    push_section(&mut out, tags, false);
    assert(shows@.map_values(|id: i64| Some(Source::Show(id))) =~= shows@.map_values(
        |id: i64|
            if true {
                Some(Source::Show(id))
            } else {
                Some(Source::Tag(id))
            },
    ));
    assert(tags@.map_values(|id: i64| Some(Source::Tag(id))) =~= tags@.map_values(
        |id: i64|
            if false {
                Some(Source::Show(id))
            } else {
                Some(Source::Tag(id))
            },
    ));
    assert(out@ =~= sidebar_layout(shows@, tags@));
    out
}

/// The first row of `rows` showing `want`, if any.
pub open spec fn first_row(rows: Seq<Option<Source>>, want: Source) -> Option<int>
    decreases rows.len(),
{
    if rows.len() == 0 {
        None
    } else if rows[0] == Some(want) {
        Some(0)
    } else {
        match first_row(rows.drop_first(), want) {
            Some(k) => Some(k + 1),
            None => None,
        }
    }
}

/// The sidebar row to select after a rebuild: the first row showing the
/// wanted source, else row 1 (the Inbox, just below the first header).
pub fn sidebar_selection(rows: &[Option<Source>], select: Option<Source>) -> (r: usize)
    ensures
        r == match select {
            Some(w) => match first_row(rows@, w) {
                Some(k) => k,
                None => 1,
            },
            None => 1,
        },
{
    let want = match select {
        Some(w) => w,
        None => return 1,
    };
    let n = rows.len();
    let mut i: usize = 0;
    assert(rows@.skip(0) =~= rows@);
    while i < n
        invariant
            n == rows@.len(),
            i <= n,
            select == Some(want),
            first_row(rows@, want) == match first_row(rows@.skip(i as int), want) {
                Some(k) => Some(k + i),
                None => None,
            },
        decreases n - i,
    {
        let hit = match rows[i] {
            Some(s) => s == want,
            None => false,
        };
        assert(rows@.skip(i as int)[0] == rows@[i as int]);
        if hit {
            return i;
        }
        assert(rows@.skip(i as int).drop_first() =~= rows@.skip(i + 1));
        i += 1;
    }
    1
}

} // verus!
