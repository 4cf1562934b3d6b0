//! The indexers that a service keeps: their identifiers, their records, and what of
//! their logs is passed on.

use vstd::prelude::*;
use vstd::string::*;

verus! {

use crate::envio_utils::config::IndexerConfig;
use crate::envio_utils::project::{status_text, IndexerStatus};
use crate::text::{
    chars_of,
    lowercase_of,
    push_chars,
    push_str_chars,
    replace_char,
    replaced,
    same_chars,
    string_of,
    to_lowercase,
};

/// The parameters of the job that spawns an indexer.
#[derive(Debug, Clone, PartialEq, Eq)]
pub struct SpawnIndexerParams {
    pub config: IndexerConfig,
}

/// What the job that spawns an indexer reports.
#[derive(Debug, Clone, PartialEq, Eq)]
pub struct SpawnIndexerResult {
    /// The unique id assigned to this indexer instance.
    pub id: String,
    /// Status message.
    pub message: String,
}

/// Where indexers run.
#[derive(Debug, Clone, Copy, PartialEq, Eq, Structural)]
pub enum DeploymentMode {
    Local,
}

// ---------------------------------------------------------------------------
// Identifiers and log entries
// ---------------------------------------------------------------------------

/// The identifier of an indexer, given its name in lowercase and a unique tag: the
/// word `indexer`, the name with an underscore for each space and each hyphen, and the
/// tag, joined by underscores.
pub open spec fn indexer_id(folded_name: Seq<char>, tag: Seq<char>) -> Seq<char> {
    "indexer_"@ + replace_char(replace_char(folded_name, ' ', "_"@), '-', "_"@) + "_"@ + tag
}

/// The identifier of an indexer, given its name in lowercase and a unique tag.
pub fn indexer_id_from(folded_name: &str, tag: &str) -> (r: String)
    ensures
        r@ == indexer_id(folded_name@, tag@),
{
    let name = chars_of(folded_name);
    let underscore = chars_of("_");
    let spaced = replaced(&name, ' ', &underscore);
    let plain = replaced(&spaced, '-', &underscore);
    let mut id = chars_of("indexer_");
    push_chars(&mut id, &plain);
    push_str_chars(&mut id, "_");
    push_str_chars(&mut id, tag);
    string_of(&id)
}

/// Calls `uuid::Uuid::new_v4` and writes the identifier out in its hyphenated form. The
/// identifier is random: nothing is claimed of it.
#[verifier::external_body]
pub(crate) fn new_uuid() -> (r: String) {
    uuid::Uuid::new_v4().to_string()
}

/// Calls `chrono::Local::now` and writes the time out. The text depends on the clock
/// and the time zone: nothing is claimed of it.
#[verifier::external_body]
pub(crate) fn local_timestamp() -> (r: String) {
    chrono::Local::now().to_string()
}

/// A fresh identifier for the indexer called `name`.
pub fn generate_indexer_id(name: &str) -> (r: String)
    ensures
        exists|tag: Seq<char>| r@ == indexer_id(lowercase_of(name@), tag),
{
    let tag = new_uuid();
    let folded = to_lowercase(name);
    let id = indexer_id_from(folded.as_str(), tag.as_str());
    assert(id@ == indexer_id(lowercase_of(name@), tag@));
    id
}

/// An entry of an indexer's log: the time in square brackets, then the message.
pub open spec fn log_entry(timestamp: Seq<char>, message: Seq<char>) -> Seq<char> {
    "["@ + timestamp + "] "@ + message
}

/// An entry of an indexer's log.
pub fn log_entry_at(timestamp: &str, message: &str) -> (r: String)
    ensures
        r@ == log_entry(timestamp@, message@),
{
    let mut entry = chars_of("[");
    push_str_chars(&mut entry, timestamp);
    push_str_chars(&mut entry, "] ");
    push_str_chars(&mut entry, message);
    string_of(&entry)
}

/// An entry of an indexer's log, stamped with the current local time.
pub fn log_entry_now(message: &str) -> (r: String)
    ensures
        exists|timestamp: Seq<char>| r@ == log_entry(timestamp, message@),
{
    let timestamp = local_timestamp();
    let entry = log_entry_at(timestamp.as_str(), message);
    assert(entry@ == log_entry(timestamp@, message@));
    entry
}

/// The error for an identifier that no indexer has.
pub open spec fn not_found_message(id: Seq<char>) -> Seq<char> {
    "Indexer "@ + id + " not found"@
}

/// The error for an identifier that an indexer already has.
pub open spec fn already_exists_message(id: Seq<char>) -> Seq<char> {
    "Indexer with id "@ + id + " already exists"@
}

// ---------------------------------------------------------------------------
// Records
// ---------------------------------------------------------------------------

/// What a service knows of one indexer.
#[derive(Debug, Clone, PartialEq, Eq)]
pub struct IndexerRecord {
    pub id: String,
    pub config: IndexerConfig,
    pub status: IndexerStatus,
    pub logs: Vec<String>,
}

/// Whether an indexer in this status is probed again after `elapsed_nanos` nanoseconds
/// since it was last checked: only while it is starting or running, and only after more
/// than five seconds.
pub fn due_for_probe(status: &IndexerStatus, elapsed_nanos: u128) -> (r: bool)
    ensures
        r == ((*status is Starting || *status is Running) && elapsed_nanos > 5_000_000_000),
{
    match status {
        IndexerStatus::Starting => elapsed_nanos > 5_000_000_000,
        IndexerStatus::Running => elapsed_nanos > 5_000_000_000,
        _ => false,
    }
}

impl IndexerRecord {
    /// The record of an indexer that was just set up.
    pub fn configured(id: String, config: IndexerConfig, timestamp: &str) -> (r: Self)
        ensures
            r.id == id,
            r.config == config,
            r.status == IndexerStatus::Configured,
            r.logs@.len() == 1,
            r.logs@[0]@ == log_entry(timestamp@, "Indexer created"@),
    {
        let mut logs: Vec<String> = Vec::new();
        logs.push(log_entry_at(timestamp, "Indexer created"));
        IndexerRecord { id, config, status: IndexerStatus::Configured, logs }
    }

    /// Records that the indexer was started.
    pub fn mark_started(&mut self, timestamp: &str)
        ensures
            final(self).id == old(self).id,
            final(self).config == old(self).config,
            final(self).status == IndexerStatus::Starting,
            final(self).logs@.len() == old(self).logs@.len() + 1,
            final(self).logs@.take(old(self).logs@.len() as int) == old(self).logs@,
            final(self).logs@.last()@ == log_entry(timestamp@, "Indexer started"@),
    {
        self.logs.push(log_entry_at(timestamp, "Indexer started"));
        self.status = IndexerStatus::Starting;
        assert(self.logs@.take(old(self).logs@.len() as int) =~= old(self).logs@);
    }

    /// Records that the indexer could not be started, and returns the error to report.
    pub fn mark_start_failed(&mut self, error: &str) -> (r: String)
        ensures
            final(self).id == old(self).id,
            final(self).config == old(self).config,
            final(self).logs == old(self).logs,
            final(self).status is Failed,
            final(self).status->Failed_0@ == error@,
            r@ == "Failed to start indexer: "@ + error@,
    {
        self.status = IndexerStatus::Failed(String::from_str(error));
        let mut message = String::from_str("Failed to start indexer: ");
        message.append(error);
        message
    }

    /// Records that the indexer was stopped, and before that the error if stopping it
    /// failed.
    pub fn mark_stopped(&mut self, timestamp: &str, error: Option<&str>)
        ensures
            final(self).id == old(self).id,
            final(self).config == old(self).config,
            final(self).status == IndexerStatus::Stopped,
            final(self).logs@.len() == old(self).logs@.len() + (if error is Some {
                2int
            } else {
                1int
            }),
            final(self).logs@.take(old(self).logs@.len() as int) == old(self).logs@,
            final(self).logs@.last()@ == log_entry(timestamp@, "Indexer stopped"@),
            error is Some ==> final(self).logs@[old(self).logs@.len() as int]@ == log_entry(
                timestamp@,
                "Error stopping indexer: "@ + error->0@,
            ),
    {
        match error {
            Some(error) => {
                let mut message = String::from_str("Error stopping indexer: ");
                message.append(error);
                self.logs.push(log_entry_at(timestamp, message.as_str()));
            },
            None => {},
        }
        self.logs.push(log_entry_at(timestamp, "Indexer stopped"));
        self.status = IndexerStatus::Stopped;
        assert(self.logs@.take(old(self).logs@.len() as int) =~= old(self).logs@);
    }

    /// Records what a probe has shown: the new status, or the error if the probe
    /// failed, in which case the status stays.
    pub fn record_probe(&mut self, timestamp: &str, probe: Result<IndexerStatus, String>)
        ensures
            final(self).id == old(self).id,
            final(self).config == old(self).config,
            final(self).logs@.len() == old(self).logs@.len() + 1,
            final(self).logs@.take(old(self).logs@.len() as int) == old(self).logs@,
            match probe {
                Ok(status) => final(self).status == status && final(self).logs@.last()@
                    == log_entry(timestamp@, "Status updated: "@ + status_text(status)),
                Err(error) => final(self).status == old(self).status && final(self).logs@.last()@
                    == log_entry(timestamp@, "Error monitoring indexer: "@ + error@),
            },
    {
        match probe {
            Ok(status) => {
                let mut message = String::from_str("Status updated: ");
                let text = status.text();
                message.append(text.as_str());
                self.logs.push(log_entry_at(timestamp, message.as_str()));
                self.status = status;
            },
            Err(error) => {
                let mut message = String::from_str("Error monitoring indexer: ");
                message.append(error.as_str());
                self.logs.push(log_entry_at(timestamp, message.as_str()));
            },
        }
        assert(self.logs@.take(old(self).logs@.len() as int) =~= old(self).logs@);
    }
}

/// The index of the first record at or after `from` with the identifier `id`;
/// `records.len()` if there is none.
pub open spec fn record_index_from(records: Seq<IndexerRecord>, id: Seq<char>, from: int) -> int
    decreases records.len() - from,
{
    if from >= records.len() {
        records.len() as int
    } else if records[from].id@ == id {
        from
    } else {
        record_index_from(records, id, from + 1)
    }
}

/// The index of the first record with the identifier `id`.
pub fn find_record(records: &Vec<IndexerRecord>, id: &str) -> (r: Result<usize, String>)
    ensures
        match r {
            Ok(at) => at < records@.len() && at == record_index_from(records@, id@, 0),
            Err(message) => record_index_from(records@, id@, 0) == records@.len() && message@
                == not_found_message(id@),
        },
{
    let wanted = chars_of(id);
    let mut i: usize = 0;
    while i < records.len()
        invariant
            i <= records.len(),
            wanted@ == id@,
            record_index_from(records@, id@, 0) == record_index_from(records@, id@, i as int),
        decreases records.len() - i,
    {
        let candidate = chars_of(records[i].id.as_str());
        if same_chars(&candidate, &wanted) {
            return Ok(i);
        }
        i += 1;
    }
    let mut message = chars_of("Indexer ");
    push_str_chars(&mut message, id);
    push_str_chars(&mut message, " not found");
    Err(string_of(&message))
}

/// Adds a record, unless a record with its identifier is there already.
pub fn add_record(records: &mut Vec<IndexerRecord>, record: IndexerRecord) -> (r: Result<
    (),
    String,
>)
    ensures
        r is Ok <==> record_index_from(old(records)@, record.id@, 0) == old(records)@.len(),
        r is Ok ==> final(records)@ == old(records)@.push(record),
        r is Err ==> final(records)@ == old(records)@ && r->Err_0@ == already_exists_message(
            record.id@,
        ),
{
    match find_record(records, record.id.as_str()) {
        Ok(_) => {
            let mut message = chars_of("Indexer with id ");
            push_str_chars(&mut message, record.id.as_str());
            push_str_chars(&mut message, " already exists");
            Err(string_of(&message))
        },
        Err(_) => {
            records.push(record);
            Ok(())
        },
    }
}

/// The identifiers of the records, in order.
pub fn list_ids(records: &Vec<IndexerRecord>) -> (ids: Vec<String>)
    ensures
        ids@.len() == records@.len(),
        forall|i: int| 0 <= i < ids@.len() ==> (#[trigger] ids@[i])@ == records@[i].id@,
{
    let mut ids: Vec<String> = Vec::new();
    let mut i: usize = 0;
    while i < records.len()
        invariant
            i <= records.len(),
            ids@.len() == i,
            forall|k: int| 0 <= k < i ==> (#[trigger] ids@[k])@ == records@[k].id@,
        decreases records.len() - i,
    {
        ids.push(records[i].id.clone());
        i += 1;
    }
    ids
}

/// The message that reports that an indexer was stopped.
pub fn stopped_message(id: &str) -> (r: String)
    ensures
        r@ == "Successfully stopped indexer "@ + id@,
{
    let mut message = String::from_str("Successfully stopped indexer ");
    message.append(id);
    message
}

/// The indexers that a service keeps, in the order in which they were spawned. No two
/// have the same identifier.
pub struct IndexerRegistry {
    records: Vec<IndexerRecord>,
}

/// No two records have the same identifier.
pub open spec fn distinct_ids(records: Seq<IndexerRecord>) -> bool {
    forall|i: int, j: int|
        0 <= i < j < records.len() ==> (#[trigger] records[i]).id@ != (#[trigger] records[j]).id@
}

impl View for IndexerRegistry {
    type V = Seq<IndexerRecord>;

    closed spec fn view(&self) -> Seq<IndexerRecord> {
        self.records@
    }
}

pub proof fn lemma_record_index(records: Seq<IndexerRecord>, id: Seq<char>, from: int)
    requires
        0 <= from <= records.len(),
    ensures
        from <= record_index_from(records, id, from) <= records.len(),
        record_index_from(records, id, from) < records.len() ==> records[record_index_from(
            records,
            id,
            from,
        )].id@ == id,
        forall|k: int|
            from <= k < record_index_from(records, id, from) ==> (#[trigger] records[k]).id@
                != id,
    decreases records.len() - from,
{
    if from < records.len() && records[from].id@ != id {
        lemma_record_index(records, id, from + 1);
    }
}

impl IndexerRegistry {
    #[verifier::type_invariant]
    spec fn inv(self) -> bool {
        distinct_ids(self.records@)
    }

    /// A registry without indexers.
    pub fn new() -> (r: Self)
        ensures
            r@.len() == 0,
    {
        IndexerRegistry { records: Vec::new() }
    }

    /// Adds the record of a new indexer, unless its identifier is taken.
    pub fn insert(&mut self, record: IndexerRecord) -> (r: Result<(), String>)
        ensures
            r is Ok <==> record_index_from(old(self)@, record.id@, 0) == old(self)@.len(),
            r is Ok ==> final(self)@ == old(self)@.push(record),
            r is Err ==> final(self)@ == old(self)@ && r->Err_0@ == already_exists_message(
                record.id@,
            ),
            distinct_ids(final(self)@),
    {
        proof {
            use_type_invariant(&*self);
            lemma_record_index(self.records@, record.id@, 0);
        }
        let mut records: Vec<IndexerRecord> = Vec::new();
        std::mem::swap(&mut records, &mut self.records);
        let outcome = add_record(&mut records, record);
        self.records = records;
        outcome
    }

    /// The identifiers of all indexers.
    pub fn list_indexers(&self) -> (ids: Vec<String>)
        ensures
            ids@.len() == self@.len(),
            forall|i: int| 0 <= i < ids@.len() ==> (#[trigger] ids@[i])@ == self@[i].id@,
    {
        list_ids(&self.records)
    }

    /// The status of the indexer with the identifier `id`.
    pub fn get_indexer_status(&self, id: &str) -> (r: Result<IndexerStatus, String>)
        ensures
            match r {
                Ok(status) => record_index_from(self@, id@, 0) < self@.len() && status
                    == self@[record_index_from(self@, id@, 0)].status,
                Err(message) => record_index_from(self@, id@, 0) == self@.len() && message@
                    == not_found_message(id@),
            },
    {
        match find_record(&self.records, id) {
            Ok(at) => Ok(self.records[at].status.duplicate()),
            Err(message) => Err(message),
        }
    }

    /// The record of the indexer with the identifier `id`.
    pub fn get(&self, id: &str) -> (r: Result<&IndexerRecord, String>)
        ensures
            match r {
                Ok(record) => record_index_from(self@, id@, 0) < self@.len() && *record
                    == self@[record_index_from(self@, id@, 0)],
                Err(message) => record_index_from(self@, id@, 0) == self@.len() && message@
                    == not_found_message(id@),
            },
    {
        match find_record(&self.records, id) {
            Ok(at) => Ok(&self.records[at]),
            Err(message) => Err(message),
        }
    }

    /// Puts `record` in the place of the record with the same identifier, if there is
    /// one.
    pub fn replace(&mut self, record: IndexerRecord) -> (r: Result<(), String>)
        ensures
            match r {
                Ok(()) => record_index_from(old(self)@, record.id@, 0) < old(self)@.len()
                    && final(self)@ == old(self)@.update(
                    record_index_from(old(self)@, record.id@, 0),
                    record,
                ),
                Err(message) => record_index_from(old(self)@, record.id@, 0) == old(
                    self,
                )@.len() && final(self)@ == old(self)@ && message@ == not_found_message(
                    record.id@,
                ),
            },
            distinct_ids(final(self)@),
    {
        proof {
            use_type_invariant(&*self);
            lemma_record_index(self.records@, record.id@, 0);
        }
        match find_record(&self.records, record.id.as_str()) {
            Ok(at) => {
                let mut records: Vec<IndexerRecord> = Vec::new();
                std::mem::swap(&mut records, &mut self.records);
                let ghost before = records@;
                records.remove(at);
                records.insert(at, record);
                assert(records@ =~= before.update(at as int, record));
                self.records = records;
                Ok(())
            },
            Err(message) => Err(message),
        }
    }
}

} // verus!
