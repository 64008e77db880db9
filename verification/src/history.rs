//! The log of past exchanges: bounded, oldest first, newest last.

use vstd::prelude::*;
use crate::clock::clock_millis;
use crate::headers::Header;
use crate::model::HttpMethod;
use crate::text::text_of;

verus! {

/// The request of a past exchange.
#[derive(Debug)]
pub struct RequestData {
    pub url: Vec<char>,
    pub method: Vec<char>,
    pub headers: Vec<Header>,
    pub body: Option<Vec<char>>,
}

/// The response of a past exchange.
#[derive(Debug)]
pub struct ResponseData {
    pub status: Option<u16>,
    pub status_text: Option<String>,
    pub headers: Vec<(String, String)>,
    pub body: String,
    pub time_ms: u128,
    pub size_bytes: usize,
}

/// One past exchange, stamped in milliseconds since the Unix epoch.
#[derive(Debug)]
pub struct HistoryEntry {
    pub timestamp: i64,
    pub request: RequestData,
    pub response: Option<ResponseData>,
}

/// Why the history could not be set up or written.
#[derive(Debug)]
pub enum HistoryError {
    Io(String),
    Json(String),
    NoUserDir,
}

/// The log after `entry` was appended to a log of capacity `max`: the oldest
/// entry leaves when the log would grow past its capacity.
pub open spec fn appended(log: Seq<HistoryEntry>, entry: HistoryEntry, max: int) -> Seq<
    HistoryEntry,
> {
    if log.len() + 1 > max {
        log.push(entry).drop_first()
    } else {
        log.push(entry)
    }
}

/// The newest `max` entries of a log, in order.
pub open spec fn newest(log: Seq<HistoryEntry>, max: int) -> Seq<HistoryEntry> {
    if log.len() > max {
        log.subrange(log.len() - max, log.len() as int)
    } else {
        log
    }
}

/// The bounded log of past exchanges.
#[derive(Debug)]
pub struct History {
    pub entries: Vec<HistoryEntry>,
    pub max_entries: usize,
}

impl History {
    /// The log holds no more entries than its capacity.
    pub open spec fn well_formed(&self) -> bool {
        self.entries@.len() <= self.max_entries
    }

    /// A log of capacity `max_entries` over the entries that were kept from
    /// earlier sessions; where they are more than the capacity, the oldest go.
    pub fn new(max_entries: usize, kept: Vec<HistoryEntry>) -> (log: History)
        ensures
            log.max_entries == max_entries,
            log.entries@ == newest(kept@, max_entries as int),
            log.well_formed(),
    {
        let mut entries = kept;
        while entries.len() > max_entries
            invariant
                entries@.len() <= kept@.len(),
                entries@.len() >= max_entries || entries@.len() == kept@.len(),
                entries@ == kept@.subrange(kept@.len() - entries@.len(), kept@.len() as int),
            decreases entries@.len(),
        {
            entries.remove(0);
            assert(entries@ =~= kept@.subrange(kept@.len() - entries@.len(), kept@.len() as int));
        }
        assert(kept@.subrange(0, kept@.len() as int) =~= kept@);
        History { entries, max_entries }
    }

    /// Appends `entry` as the newest; the oldest leaves when the log is full.
    pub fn push_entry(&mut self, entry: HistoryEntry)
        ensures
            final(self).entries@ == appended(old(self).entries@, entry, old(self).max_entries as int),
            final(self).max_entries == old(self).max_entries,
            old(self).well_formed() ==> final(self).well_formed(),
    {
        self.entries.push(entry);
        if self.entries.len() > self.max_entries {
            self.entries.remove(0);
        }
    }

    /// Records an exchange under the current time.
    pub fn add_entry(
        &mut self,
        url: Vec<char>,
        method: HttpMethod,
        headers: Vec<Header>,
        body: Option<Vec<char>>,
        response: Option<ResponseData>,
    )
        ensures
            final(self).max_entries == old(self).max_entries,
            old(self).well_formed() ==> final(self).well_formed(),
            exists|entry: HistoryEntry|
                {
                    &&& #[trigger] appended(
                        old(self).entries@,
                        entry,
                        old(self).max_entries as int,
                    ) == final(self).entries@
                    &&& entry.request.url == url
                    &&& entry.request.method@ == method.name()
                    &&& entry.request.headers == headers
                    &&& entry.request.body == body
                    &&& entry.response == response
                },
    {
        let entry = HistoryEntry {
            timestamp: clock_millis(),
            request: RequestData { url, method: text_of(method.as_str()), headers, body },
            response,
        };
        self.push_entry(entry);
    }

    /// The entries, oldest first.
    pub fn get_entries(&self) -> (entries: &Vec<HistoryEntry>)
        ensures
            entries == self.entries,
    {
        &self.entries
    }
}

} // verus!
