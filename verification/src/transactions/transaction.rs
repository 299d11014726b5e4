use vstd::prelude::*;
use vstd::slice::slice_to_vec;

use crate::error::Error;
use crate::options::{ColumnFamilyRef, Direction, IteratorMode, IteratorModeView, ReadOptions, ReadOptionsView};

verus! {

/// What a transaction asks of the engine.
pub enum TxnCall {
    Commit,
    SetCommitTimestamp(u64),
    SetReadTimestampForValidation(u64),
    AssignCommitTimestamp(u64),
    SetName(Vec<u8>),
    GetName,
    Prepare,
    GetSnapshot,
    Rollback,
    SetSavepoint,
    RollbackToSavepoint,
    /// A read of `key` (in the default column family when `cf` is `None`),
    /// which also sees the transaction's own pending writes.
    Get { cf: Option<ColumnFamilyRef>, key: Vec<u8>, readopts: ReadOptions },
    /// A read that also makes the transaction track `key` for conflicts;
    /// `exclusive` is 1 for an exclusive lock and 0 for a shared one.
    GetForUpdate { cf: Option<ColumnFamilyRef>, key: Vec<u8>, exclusive: u8, readopts: ReadOptions },
    /// A batched read in the default column family; `keys_sizes[i]` is the
    /// length of `keys[i]`.
    MultiGet { keys: Vec<Vec<u8>>, keys_sizes: Vec<usize>, readopts: ReadOptions },
    /// A batched read where `keys[i]` is read in column family `cfs[i]`.
    MultiGetCf { cfs: Vec<ColumnFamilyRef>, keys: Vec<Vec<u8>>, keys_sizes: Vec<usize>, readopts: ReadOptions },
    Put { cf: Option<ColumnFamilyRef>, key: Vec<u8>, value: Vec<u8> },
    Merge { cf: Option<ColumnFamilyRef>, key: Vec<u8>, value: Vec<u8> },
    Delete { cf: Option<ColumnFamilyRef>, key: Vec<u8> },
    /// A new iterator; with `mode` it is positioned as the mode says, without
    /// it the iterator is raw and left unpositioned.
    CreateIterator { cf: Option<ColumnFamilyRef>, readopts: ReadOptions, mode: Option<IteratorMode> },
    GetWriteBatch,
    RebuildFromWriteBatch(Vec<u8>),
}

/// The mathematical value of a [`TxnCall`].
pub enum TxnCallView {
    Commit,
    SetCommitTimestamp(u64),
    SetReadTimestampForValidation(u64),
    AssignCommitTimestamp(u64),
    SetName(Seq<u8>),
    GetName,
    Prepare,
    GetSnapshot,
    Rollback,
    SetSavepoint,
    RollbackToSavepoint,
    Get { cf: Option<ColumnFamilyRef>, key: Seq<u8>, readopts: ReadOptionsView },
    GetForUpdate { cf: Option<ColumnFamilyRef>, key: Seq<u8>, exclusive: u8, readopts: ReadOptionsView },
    MultiGet { keys: Seq<Seq<u8>>, keys_sizes: Seq<usize>, readopts: ReadOptionsView },
    MultiGetCf { cfs: Seq<ColumnFamilyRef>, keys: Seq<Seq<u8>>, keys_sizes: Seq<usize>, readopts: ReadOptionsView },
    Put { cf: Option<ColumnFamilyRef>, key: Seq<u8>, value: Seq<u8> },
    Merge { cf: Option<ColumnFamilyRef>, key: Seq<u8>, value: Seq<u8> },
    Delete { cf: Option<ColumnFamilyRef>, key: Seq<u8> },
    CreateIterator { cf: Option<ColumnFamilyRef>, readopts: ReadOptionsView, mode: Option<IteratorModeView> },
    GetWriteBatch,
    RebuildFromWriteBatch(Seq<u8>),
}

/// The views of a sequence of byte vectors.
pub open spec fn byte_seqs(v: Seq<Vec<u8>>) -> Seq<Seq<u8>> {
    v.map_values(|k: Vec<u8>| k@)
}

impl View for TxnCall {
    type V = TxnCallView;

    open spec fn view(&self) -> TxnCallView {
        match self {
            TxnCall::Commit => TxnCallView::Commit,
            TxnCall::SetCommitTimestamp(ts) => TxnCallView::SetCommitTimestamp(*ts),
            TxnCall::SetReadTimestampForValidation(ts) => TxnCallView::SetReadTimestampForValidation(*ts),
            TxnCall::AssignCommitTimestamp(ts) => TxnCallView::AssignCommitTimestamp(*ts),
            TxnCall::SetName(name) => TxnCallView::SetName(name@),
            TxnCall::GetName => TxnCallView::GetName,
            TxnCall::Prepare => TxnCallView::Prepare,
            TxnCall::GetSnapshot => TxnCallView::GetSnapshot,
            TxnCall::Rollback => TxnCallView::Rollback,
            TxnCall::SetSavepoint => TxnCallView::SetSavepoint,
            TxnCall::RollbackToSavepoint => TxnCallView::RollbackToSavepoint,
            TxnCall::Get { cf, key, readopts } => TxnCallView::Get { cf: *cf, key: key@, readopts: readopts@ },
            TxnCall::GetForUpdate { cf, key, exclusive, readopts } =>
                TxnCallView::GetForUpdate { cf: *cf, key: key@, exclusive: *exclusive, readopts: readopts@ },
            TxnCall::MultiGet { keys, keys_sizes, readopts } =>
                TxnCallView::MultiGet { keys: byte_seqs(keys@), keys_sizes: keys_sizes@, readopts: readopts@ },
            TxnCall::MultiGetCf { cfs, keys, keys_sizes, readopts } =>
                TxnCallView::MultiGetCf {
                    cfs: cfs@,
                    keys: byte_seqs(keys@),
                    keys_sizes: keys_sizes@,
                    readopts: readopts@,
                },
            TxnCall::Put { cf, key, value } => TxnCallView::Put { cf: *cf, key: key@, value: value@ },
            TxnCall::Merge { cf, key, value } => TxnCallView::Merge { cf: *cf, key: key@, value: value@ },
            TxnCall::Delete { cf, key } => TxnCallView::Delete { cf: *cf, key: key@ },
            TxnCall::CreateIterator { cf, readopts, mode } => TxnCallView::CreateIterator {
                cf: *cf,
                readopts: readopts@,
                mode: match mode {
                    Some(m) => Some(m@),
                    None => None,
                },
            },
            TxnCall::GetWriteBatch => TxnCallView::GetWriteBatch,
            TxnCall::RebuildFromWriteBatch(data) => TxnCallView::RebuildFromWriteBatch(data@),
        }
    }
}

/// A call addressed to the engine's transaction with handle `txn`.
pub struct TxnRequest {
    pub txn: usize,
    pub call: TxnCall,
}

/// The mathematical value of a [`TxnRequest`].
pub struct TxnRequestView {
    pub txn: usize,
    pub call: TxnCallView,
}

impl View for TxnRequest {
    type V = TxnRequestView;

    open spec fn view(&self) -> TxnRequestView {
        TxnRequestView { txn: self.txn, call: self.call@ }
    }
}


/// The bytes of a value that the engine has pinned for the caller.
pub struct DBPinnableSlice {
    bytes: Vec<u8>,
}

impl View for DBPinnableSlice {
    type V = Seq<u8>;

    closed spec fn view(&self) -> Seq<u8> {
        self.bytes@
    }
}

impl DBPinnableSlice {
    /// Wraps the bytes that the engine returned for a read.
    pub fn from_bytes(bytes: Vec<u8>) -> (s: DBPinnableSlice)
        ensures
            s@ == bytes@,
    {
        DBPinnableSlice { bytes }
    }

    /// The value's bytes.
    pub fn as_ref(&self) -> (b: &[u8])
        ensures
            b@ == self@,
    {
        self.bytes.as_slice()
    }

    /// A copy of the value's bytes.
    pub fn to_vec(&self) -> (v: Vec<u8>)
        ensures
            v@ == self@,
    {
        slice_to_vec(self.bytes.as_slice())
    }
}

/// What a read comes to: the engine failed with a message, the key has no
/// value, or it has the given value.
pub enum ReadOutcome {
    Failed(Seq<char>),
    Missing,
    Found(Seq<u8>),
}

/// The message of an optional error reply.
pub open spec fn opt_chars(e: Option<String>) -> Option<Seq<char>> {
    match e {
        Some(m) => Some(m@),
        None => None,
    }
}

/// The bytes of an optional value reply.
pub open spec fn opt_bytes(v: Option<Vec<u8>>) -> Option<Seq<u8>> {
    match v {
        Some(b) => Some(b@),
        None => None,
    }
}

/// A reported error wins; otherwise an absent value means the key is missing.
pub open spec fn read_outcome(err: Option<Seq<char>>, value: Option<Seq<u8>>) -> ReadOutcome {
    match err {
        Some(m) => ReadOutcome::Failed(m),
        None => match value {
            Some(v) => ReadOutcome::Found(v),
            None => ReadOutcome::Missing,
        },
    }
}

/// What an owned read result says.
pub open spec fn owned_outcome(r: Result<Option<Vec<u8>>, Error>) -> ReadOutcome {
    match r {
        Err(e) => ReadOutcome::Failed(e@),
        Ok(None) => ReadOutcome::Missing,
        Ok(Some(v)) => ReadOutcome::Found(v@),
    }
}

/// What a pinned read result says.
pub open spec fn pinned_outcome(r: Result<Option<DBPinnableSlice>, Error>) -> ReadOutcome {
    match r {
        Err(e) => ReadOutcome::Failed(e@),
        Ok(None) => ReadOutcome::Missing,
        Ok(Some(s)) => ReadOutcome::Found(s@),
    }
}

/// The engine's reply to a single read: an error message if the engine
/// reported one, and the value if the engine found one.
pub struct GetReply {
    pub err: Option<String>,
    pub value: Option<Vec<u8>>,
}

impl GetReply {
    /// What this reply says of the read.
    pub open spec fn outcome(&self) -> ReadOutcome {
        read_outcome(opt_chars(self.err), opt_bytes(self.value))
    }
}

/// The engine's reply to a batched read: `values[i]` and `errors[i]` answer
/// the `i`-th key.
pub struct MultiGetReply {
    pub values: Vec<Option<Vec<u8>>>,
    pub errors: Vec<Option<String>>,
}

impl MultiGetReply {
    /// The number of keys the reply answers: the shorter of its two columns.
    pub open spec fn answered(&self) -> nat {
        if self.values.len() <= self.errors.len() {
            self.values.len() as nat
        } else {
            self.errors.len() as nat
        }
    }

    /// What the reply says of the `i`-th key.
    pub open spec fn slot(&self, i: int) -> ReadOutcome {
        read_outcome(opt_chars(self.errors[i]), opt_bytes(self.values[i]))
    }
}

/// For every engine reply, a read that copies the value out gives back
/// exactly the bytes that the pinned read of the same reply holds, and it
/// fails, with the same message, or misses exactly when the pinned read does.
pub proof fn copied_read_matches_pinned_read(
    reply: GetReply,
    pinned: Result<Option<DBPinnableSlice>, Error>,
    copied: Result<Option<Vec<u8>>, Error>,
)
    requires
        pinned_outcome(pinned) == reply.outcome(),
        owned_outcome(copied) == reply.outcome(),
    ensures
        match (pinned, copied) {
            (Ok(Some(p)), Ok(Some(c))) => p@ == c@,
            (Ok(None), Ok(None)) => true,
            (Err(a), Err(b)) => a@ == b@,
            _ => false,
        },
{
}

/// When the engine answers every one of the `n` keys of a batched read,
/// the read yields exactly `n` results, the `i`-th answering the `i`-th key.
pub proof fn batched_read_answers_every_key(reply: MultiGetReply, n: nat)
    requires
        reply.values.len() == n,
        reply.errors.len() == n,
    ensures
        reply.answered() == n,
        forall|i: int| 0 <= i < n ==> #[trigger] reply.slot(i) == read_outcome(
            opt_chars(reply.errors[i]),
            opt_bytes(reply.values[i]),
        ),
{
}

/// A read gives back exactly what the engine answered: the engine's error
/// with its message; otherwise the value's bytes, whatever their length (an
/// empty value is a present value); `None` only when the engine found no
/// value. This holds of every pinned read result that meets its contract.
pub proof fn pinned_read_gives_the_engine_answer(
    reply: GetReply,
    r: Result<Option<DBPinnableSlice>, Error>,
)
    requires
        pinned_outcome(r) == reply.outcome(),
    ensures
        match reply.err {
            Some(m) => r matches Err(e) && e@ == m@,
            None => match reply.value {
                Some(v) => r matches Ok(Some(s)) && s@ == v@ && s@.len() == v.len(),
                None => r matches Ok(None),
            },
        },
        (r matches Ok(None)) ==> (reply.err is None && reply.value is None),
{
}

/// As for pinned reads: a copied read yields the value's exact bytes, an
/// empty value included, and `None` only when the engine found no value.
pub proof fn copied_read_gives_the_engine_answer(reply: GetReply, r: Result<Option<Vec<u8>>, Error>)
    requires
        owned_outcome(r) == reply.outcome(),
    ensures
        match reply.err {
            Some(m) => r matches Err(e) && e@ == m@,
            None => match reply.value {
                Some(v) => r matches Ok(Some(b)) && b@ == v@ && b@.len() == v.len(),
                None => r matches Ok(None),
            },
        },
        (r matches Ok(None)) ==> (reply.err is None && reply.value is None),
{
}

/// A batched read gives, for every answered key `i`, the engine's error for
/// it, or else exactly the value the engine returned for it (an empty value
/// included); `Ok(None)` only where the engine returned no value.
pub proof fn batched_read_gives_the_engine_answers(
    reply: MultiGetReply,
    r: Seq<Result<Option<Vec<u8>>, Error>>,
)
    requires
        r.len() == reply.answered(),
        forall|i: int| 0 <= i < r.len() ==> owned_outcome(#[trigger] r[i]) == reply.slot(i),
    ensures
        r.len() <= reply.values.len(),
        r.len() <= reply.errors.len(),
        r.len() == reply.values.len() || r.len() == reply.errors.len(),
        forall|i: int|
            0 <= i < r.len() ==> match reply.errors[i] {
                Some(m) => #[trigger] r[i] matches Err(e) && e@ == m@,
                None => match reply.values[i] {
                    Some(v) => r[i] matches Ok(Some(b)) && b@ == v@,
                    None => r[i] matches Ok(None),
                },
            },
        forall|i: int|
            0 <= i < r.len() && (#[trigger] r[i] matches Ok(None)) ==> (reply.errors[i] is None
                && reply.values[i] is None),
{
    assert forall|i: int| 0 <= i < r.len() implies match reply.errors[i] {
        Some(m) => #[trigger] r[i] matches Err(e) && e@ == m@,
        None => match reply.values[i] {
            Some(v) => r[i] matches Ok(Some(b)) && b@ == v@,
            None => r[i] matches Ok(None),
        },
    } by {
        assert(owned_outcome(r[i]) == reply.slot(i));
    }
    assert forall|i: int| 0 <= i < r.len() && (#[trigger] r[i] matches Ok(None)) implies (
    reply.errors[i] is None && reply.values[i] is None) by {
        assert(owned_outcome(r[i]) == reply.slot(i));
    }
}

/// The engine's status reply to a call that can fail: `Some(message)` on failure.
pub open spec fn status_matches(r: Result<(), Error>, err: Option<String>) -> bool {
    match err {
        None => r is Ok,
        Some(m) => r matches Err(e) && e@ == m@,
    }
}

/// A call that can fail succeeds exactly when the engine reports no error,
/// and a failure carries the engine's message unchanged.
pub proof fn status_gives_the_engine_answer(r: Result<(), Error>, err: Option<String>)
    requires
        status_matches(r, err),
    ensures
        (r is Ok) <==> (err is None),
        err matches Some(m) ==> (r matches Err(e) && e@ == m@),
{
}

/// The key lengths sent with a batched read are, in order, the lengths of
/// the keys; the byte views of the keys are, in order, the keys' bytes.
pub proof fn batched_read_sends_each_key_with_its_length(keys: Seq<Vec<u8>>)
    ensures
        byte_seqs(keys).len() == keys.len(),
        key_sizes(byte_seqs(keys)).len() == keys.len(),
        forall|i: int| 0 <= i < keys.len() ==> #[trigger] byte_seqs(keys)[i] == keys[i]@,
        forall|i: int|
            0 <= i < keys.len() ==> #[trigger] key_sizes(byte_seqs(keys))[i] as int == keys[i]@.len(),
{
    assert forall|i: int| 0 <= i < keys.len() implies #[trigger] key_sizes(byte_seqs(keys))[i] as int
        == keys[i]@.len() by {
        assert(byte_seqs(keys)[i] == keys[i]@);
        assert(keys[i]@.len() == keys[i].len());
    }
}

/// Each call's mathematical value carries the call's data unchanged:
/// keys, values, names, column families, lock byte and read options.
pub proof fn calls_carry_their_data(
    cf: Option<ColumnFamilyRef>,
    key: Vec<u8>,
    value: Vec<u8>,
    exclusive: u8,
    readopts: ReadOptions,
)
    ensures
        (TxnCall::Put { cf, key, value })@ == (TxnCallView::Put { cf, key: key@, value: value@ }),
        (TxnCall::Merge { cf, key, value })@ == (TxnCallView::Merge { cf, key: key@, value: value@ }),
        (TxnCall::Delete { cf, key })@ == (TxnCallView::Delete { cf, key: key@ }),
        (TxnCall::SetName(key))@ == TxnCallView::SetName(key@),
        (TxnCall::RebuildFromWriteBatch(value))@ == TxnCallView::RebuildFromWriteBatch(value@),
        (TxnCall::Get { cf, key, readopts })@ == (TxnCallView::Get {
            cf,
            key: key@,
            readopts: readopts@,
        }),
        (TxnCall::GetForUpdate { cf, key, exclusive, readopts })@ == (TxnCallView::GetForUpdate {
            cf,
            key: key@,
            exclusive,
            readopts: readopts@,
        }),
        (TxnCall::CreateIterator { cf, readopts, mode: None })@ == (TxnCallView::CreateIterator {
            cf,
            readopts: readopts@,
            mode: None,
        }),
{
}

/// Turns an engine status into the call's result.
fn check_status(err: Option<String>) -> (r: Result<(), Error>)
    ensures
        status_matches(r, err),
        (r is Ok) <==> (err is None),
        err matches Some(m) ==> (r matches Err(e) && e@ == m@),
{
    match err {
        Some(m) => Err(Error::new(m)),
        None => Ok(()),
    }
}

/// Turns the columns of a batched-read reply into one result per answered key.
fn convert_values(values: &Vec<Option<Vec<u8>>>, errors: &Vec<Option<String>>) -> (r: Vec<
    Result<Option<Vec<u8>>, Error>,
>)
    ensures
        r.len() == (if values.len() <= errors.len() { values.len() } else { errors.len() }),
        forall|i: int|
            0 <= i < r.len() ==> owned_outcome(#[trigger] r[i]) == read_outcome(
                opt_chars(errors[i]),
                opt_bytes(values[i]),
            ),
        forall|i: int|
            0 <= i < r.len() ==> match errors[i] {
                Some(m) => #[trigger] r[i] matches Err(e) && e@ == m@,
                None => match values[i] {
                    Some(v) => r[i] matches Ok(Some(b)) && b@ == v@,
                    None => r[i] matches Ok(None),
                },
            },
{
    let n: usize = if values.len() <= errors.len() {
        values.len()
    } else {
        errors.len()
    };
    let mut out: Vec<Result<Option<Vec<u8>>, Error>> = Vec::new();
    let mut i: usize = 0;
    while i < n
        invariant
            n <= values.len(),
            n <= errors.len(),
            i <= n,
            out.len() == i,
            forall|j: int|
                0 <= j < i ==> owned_outcome(#[trigger] out[j]) == read_outcome(
                    opt_chars(errors[j]),
                    opt_bytes(values[j]),
                ),
            forall|j: int|
                0 <= j < i ==> match errors[j] {
                    Some(m) => #[trigger] out[j] matches Err(e) && e@ == m@,
                    None => match values[j] {
                        Some(v) => out[j] matches Ok(Some(b)) && b@ == v@,
                        None => out[j] matches Ok(None),
                    },
                },
        decreases n - i,
    {
        let item: Result<Option<Vec<u8>>, Error> = match &errors[i] {
            Some(m) => Err(Error::new(m.clone())),
            None => match &values[i] {
                Some(v) => Ok(Some(slice_to_vec(v.as_slice()))),
                None => Ok(None),
            },
        };
        out.push(item);
        i = i + 1;
    }
    out
}

/// A pending call whose only reply is a status.
pub struct StatusCall {
    pub request: TxnRequest,
}

impl StatusCall {
    /// The call's result, given the engine's status: `Ok` when the engine
    /// reported no error, otherwise an error carrying the engine's message.
    pub fn finish(self, err: Option<String>) -> (r: Result<(), Error>)
        ensures
            status_matches(r, err),
            (r is Ok) <==> (err is None),
            err matches Some(m) ==> (r matches Err(e) && e@ == m@),
    {
        check_status(err)
    }
}

/// A pending read whose value stays pinned by the engine.
pub struct PinnedGetCall {
    pub request: TxnRequest,
}

impl PinnedGetCall {
    /// The read's result, given the engine's reply.
    pub fn finish(self, reply: GetReply) -> (r: Result<Option<DBPinnableSlice>, Error>)
        ensures
            pinned_outcome(r) == reply.outcome(),
            match reply.err {
                Some(m) => r matches Err(e) && e@ == m@,
                None => match reply.value {
                    Some(v) => r matches Ok(Some(s)) && s@ == v@,
                    None => r matches Ok(None),
                },
            },
    {
        match reply.err {
            Some(m) => Err(Error::new(m)),
            None => match reply.value {
                Some(v) => Ok(Some(DBPinnableSlice::from_bytes(v))),
                None => Ok(None),
            },
        }
    }
}

/// A pending read whose value is copied out of the engine.
pub struct GetCall {
    pub pinned: PinnedGetCall,
}

impl GetCall {
    /// The request sent to the engine: the same as for the pinned read.
    pub open spec fn request(&self) -> TxnRequest {
        self.pinned.request
    }

    /// The read's result: the pinned read's result with the value copied.
    pub fn finish(self, reply: GetReply) -> (r: Result<Option<Vec<u8>>, Error>)
        ensures
            owned_outcome(r) == reply.outcome(),
            match reply.err {
                Some(m) => r matches Err(e) && e@ == m@,
                None => match reply.value {
                    Some(v) => r matches Ok(Some(b)) && b@ == v@,
                    None => r matches Ok(None),
                },
            },
    {
        match self.pinned.finish(reply) {
            Err(e) => Err(e),
            Ok(None) => Ok(None),
            Ok(Some(s)) => Ok(Some(s.to_vec())),
        }
    }
}

/// A pending batched read.
pub struct MultiGetCall {
    pub request: TxnRequest,
}

impl MultiGetCall {
    /// One result per key that the reply answers, in the order of the keys.
    pub fn finish(self, reply: MultiGetReply) -> (r: Vec<Result<Option<Vec<u8>>, Error>>)
        ensures
            r.len() == reply.answered(),
            forall|i: int| 0 <= i < r.len() ==> owned_outcome(#[trigger] r[i]) == reply.slot(i),
            forall|i: int|
                0 <= i < r.len() ==> match reply.errors[i] {
                    Some(m) => #[trigger] r[i] matches Err(e) && e@ == m@,
                    None => match reply.values[i] {
                        Some(v) => r[i] matches Ok(Some(b)) && b@ == v@,
                        None => r[i] matches Ok(None),
                    },
                },
    {
        convert_values(&reply.values, &reply.errors)
    }
}


/// The lengths of a sequence of keys, in order.
pub open spec fn key_sizes(keys: Seq<Seq<u8>>) -> Seq<usize> {
    keys.map_values(|k: Seq<u8>| k.len() as usize)
}

/// The lock mode byte the engine takes: 1 for exclusive, 0 for shared.
pub open spec fn lock_byte(exclusive: bool) -> u8 {
    if exclusive {
        1
    } else {
        0
    }
}

/// The serialized contents of a write batch taken from, or given to, a transaction.
pub struct WriteBatchWithTransaction {
    data: Vec<u8>,
}

impl View for WriteBatchWithTransaction {
    type V = Seq<u8>;

    closed spec fn view(&self) -> Seq<u8> {
        self.data@
    }
}

impl WriteBatchWithTransaction {
    /// A write batch with the given serialized contents.
    pub fn from_data(data: Vec<u8>) -> (wb: WriteBatchWithTransaction)
        ensures
            wb@ == data@,
    {
        WriteBatchWithTransaction { data }
    }

    /// The batch's serialized contents.
    pub fn data(&self) -> (d: &[u8])
        ensures
            d@ == self@,
    {
        self.data.as_slice()
    }
}

/// A transaction of the engine, named by the engine's handle for it.
///
/// Each operation returns what to ask of the engine; operations that the
/// engine answers come back as pending calls whose `finish` turns the reply
/// into the operation's result.
pub struct Transaction {
    inner: usize,
}

impl Transaction {
    /// The engine's handle for this transaction.
    pub closed spec fn handle(&self) -> usize {
        self.inner
    }

    /// The transaction with the engine's handle `inner`.
    pub fn from_raw(inner: usize) -> (t: Transaction)
        ensures
            t.handle() == inner,
    {
        Transaction { inner }
    }

    /// The request that addresses `call` to this transaction.
    pub open spec fn req(&self, call: TxnCallView) -> TxnRequestView {
        TxnRequestView { txn: self.handle(), call }
    }

    /// A plain read of `key`.
    pub open spec fn get_request(
        &self,
        cf: Option<ColumnFamilyRef>,
        key: Seq<u8>,
        readopts: ReadOptionsView,
    ) -> TxnRequestView {
        self.req(TxnCallView::Get { cf, key, readopts })
    }

    /// A read of `key` that also tracks it for conflicts.
    pub open spec fn get_for_update_request(
        &self,
        cf: Option<ColumnFamilyRef>,
        key: Seq<u8>,
        exclusive: bool,
        readopts: ReadOptionsView,
    ) -> TxnRequestView {
        self.req(TxnCallView::GetForUpdate { cf, key, exclusive: lock_byte(exclusive), readopts })
    }

    /// A new iterator.
    pub open spec fn iterator_request(
        &self,
        cf: Option<ColumnFamilyRef>,
        readopts: ReadOptionsView,
        mode: Option<IteratorModeView>,
    ) -> TxnRequestView {
        self.req(TxnCallView::CreateIterator { cf, readopts, mode })
    }

    /// Every request is addressed to this transaction and carries its call
    /// exactly as built: nothing is dropped, reordered or swapped.
    pub proof fn request_carries_its_call(&self, call: TxnCallView)
        ensures
            self.req(call).txn == self.handle(),
            self.req(call).call == call,
    {
    }

    /// A write carries the key and the value in their places: for a put or
    /// merge, `key` is the key and `value` the value, in the column family given.
    pub proof fn writes_carry_key_and_value(
        &self,
        cf: Option<ColumnFamilyRef>,
        key: Seq<u8>,
        value: Seq<u8>,
    )
        ensures
            self.req(TxnCallView::Put { cf, key, value }).call matches TxnCallView::Put {
                cf: c,
                key: k,
                value: v,
            } && c == cf && k == key && v == value,
            self.req(TxnCallView::Merge { cf, key, value }).call matches TxnCallView::Merge {
                cf: c,
                key: k,
                value: v,
            } && c == cf && k == key && v == value,
            self.req(TxnCallView::Delete { cf, key }).call matches TxnCallView::Delete {
                cf: c,
                key: k,
            } && c == cf && k == key,
    {
    }

    /// A plain read carries the caller's read options unchanged, read
    /// timestamp included, with the key and column family given.
    pub proof fn plain_read_keeps_read_options(
        &self,
        cf: Option<ColumnFamilyRef>,
        key: Seq<u8>,
        readopts: ReadOptionsView,
    )
        ensures
            self.get_request(cf, key, readopts).txn == self.handle(),
            self.get_request(cf, key, readopts).call matches TxnCallView::Get {
                cf: c,
                key: k,
                readopts: o,
            } && c == cf && k == key && o == readopts && o.timestamp == readopts.timestamp,
    {
    }

    /// A locking read carries the caller's read options unchanged, read
    /// timestamp included, and locks exclusively (1) or shared (0) as asked.
    pub proof fn locking_read_keeps_read_options(
        &self,
        cf: Option<ColumnFamilyRef>,
        key: Seq<u8>,
        exclusive: bool,
        readopts: ReadOptionsView,
    )
        ensures
            self.get_for_update_request(cf, key, exclusive, readopts).txn == self.handle(),
            self.get_for_update_request(cf, key, exclusive, readopts).call matches TxnCallView::GetForUpdate {
                cf: c,
                key: k,
                exclusive: e,
                readopts: o,
            } && c == cf && k == key && o == readopts && o.timestamp == readopts.timestamp && (
            exclusive ==> e == 1u8) && (!exclusive ==> e == 0u8),
    {
    }

    /// An iterator request carries the read options it is built with
    /// unchanged (total order, prefix, read timestamp) and the mode given.
    pub proof fn iterator_keeps_read_options(
        &self,
        cf: Option<ColumnFamilyRef>,
        readopts: ReadOptionsView,
        mode: Option<IteratorModeView>,
    )
        ensures
            self.iterator_request(cf, readopts, mode).txn == self.handle(),
            self.iterator_request(cf, readopts, mode).call matches TxnCallView::CreateIterator {
                cf: c,
                readopts: o,
                mode: m,
            } && c == cf && o == readopts && o.timestamp == readopts.timestamp && m == mode,
    {
    }

    fn request(&self, call: TxnCall) -> (r: TxnRequest)
        ensures
            r@ == self.req(call@),
            r.txn == self.handle(),
            r.call == call,
    {
        TxnRequest { txn: self.inner, call }
    }

    fn status(&self, call: TxnCall) -> (c: StatusCall)
        ensures
            c.request@ == self.req(call@),
    {
        StatusCall { request: self.request(call) }
    }

    /// Writes all batched keys to the database atomically.
    pub fn commit(self) -> (c: StatusCall)
        ensures
            c.request@ == self.req(TxnCallView::Commit),
    {
        self.status(TxnCall::Commit)
    }

    /// Sets the commit timestamp on the transaction object.
    pub fn set_commit_timestamp(&self, ts: u64) -> (r: TxnRequest)
        ensures
            r@ == self.req(TxnCallView::SetCommitTimestamp(ts)),
    {
        self.request(TxnCall::SetCommitTimestamp(ts))
    }

    /// Sets the read timestamp used to validate the transaction for conflicts.
    pub fn set_read_timestamp_for_validation(&self, ts: u64) -> (r: TxnRequest)
        ensures
            r@ == self.req(TxnCallView::SetReadTimestampForValidation(ts)),
    {
        self.request(TxnCall::SetReadTimestampForValidation(ts))
    }

    /// Stamps every key in the transaction's write batch with the commit
    /// timestamp `ts`; the engine's status says whether that succeeded.
    pub fn assign_commit_timestamp(&self, ts: u64) -> (c: StatusCall)
        ensures
            c.request@ == self.req(TxnCallView::AssignCommitTimestamp(ts)),
    {
        self.status(TxnCall::AssignCommitTimestamp(ts))
    }

    /// Names the transaction.
    pub fn set_name(&self, name: &[u8]) -> (c: StatusCall)
        ensures
            c.request@ == self.req(TxnCallView::SetName(name@)),
    {
        self.status(TxnCall::SetName(slice_to_vec(name)))
    }

    /// Asks for the transaction's name; the engine's reply is the name, if any.
    pub fn get_name(&self) -> (r: TxnRequest)
        ensures
            r@ == self.req(TxnCallView::GetName),
    {
        self.request(TxnCall::GetName)
    }

    /// Prepares the transaction for a two-phase commit.
    pub fn prepare(&self) -> (c: StatusCall)
        ensures
            c.request@ == self.req(TxnCallView::Prepare),
    {
        self.status(TxnCall::Prepare)
    }

    /// Asks for the snapshot associated with the transaction.
    pub fn snapshot(&self) -> (r: TxnRequest)
        ensures
            r@ == self.req(TxnCallView::GetSnapshot),
    {
        self.request(TxnCall::GetSnapshot)
    }

    /// Discards all batched writes.
    pub fn rollback(&self) -> (c: StatusCall)
        ensures
            c.request@ == self.req(TxnCallView::Rollback),
    {
        self.status(TxnCall::Rollback)
    }

    /// Records the transaction's state for a later `rollback_to_savepoint`.
    pub fn set_savepoint(&self) -> (r: TxnRequest)
        ensures
            r@ == self.req(TxnCallView::SetSavepoint),
    {
        self.request(TxnCall::SetSavepoint)
    }

    /// Undoes the operations since the most recent savepoint and drops it.
    pub fn rollback_to_savepoint(&self) -> (c: StatusCall)
        ensures
            c.request@ == self.req(TxnCallView::RollbackToSavepoint),
    {
        self.status(TxnCall::RollbackToSavepoint)
    }

    fn pinned_read(&self, cf: Option<ColumnFamilyRef>, key: &[u8], readopts: &ReadOptions) -> (c:
        PinnedGetCall)
        ensures
            c.request@ == self.get_request(cf, key@, readopts@),
    {
        let call = TxnCall::Get { cf, key: slice_to_vec(key), readopts: readopts.clone() };
        PinnedGetCall { request: self.request(call) }
    }

    fn pinned_read_for_update(
        &self,
        cf: Option<ColumnFamilyRef>,
        key: &[u8],
        exclusive: bool,
        readopts: &ReadOptions,
    ) -> (c: PinnedGetCall)
        ensures
            c.request@ == self.get_for_update_request(cf, key@, exclusive, readopts@),
    {
        let lock: u8 = if exclusive {
            1
        } else {
            0
        };
        let call = TxnCall::GetForUpdate {
            cf,
            key: slice_to_vec(key),
            exclusive: lock,
            readopts: readopts.clone(),
        };
        PinnedGetCall { request: self.request(call) }
    }

    /// Reads `key` with the given read options; the read also sees the
    /// transaction's own pending writes.
    pub fn get_pinned_opt(&self, key: &[u8], readopts: &ReadOptions) -> (c: PinnedGetCall)
        ensures
            c.request@ == self.get_request(None, key@, readopts@),
    {
        self.pinned_read(None, key, readopts)
    }

    /// Reads `key` with the given read options, copying the value out.
    pub fn get_opt(&self, key: &[u8], readopts: &ReadOptions) -> (c: GetCall)
        ensures
            c.request()@ == self.get_request(None, key@, readopts@),
    {
        GetCall { pinned: self.get_pinned_opt(key, readopts) }
    }

    /// Reads `key` in column family `cf` with the given read options.
    pub fn get_pinned_cf_opt(&self, cf: &ColumnFamilyRef, key: &[u8], readopts: &ReadOptions) -> (c:
        PinnedGetCall)
        ensures
            c.request@ == self.get_request(Some(*cf), key@, readopts@),
    {
        self.pinned_read(Some(*cf), key, readopts)
    }

    /// Reads `key` in column family `cf` with the given read options,
    /// copying the value out.
    pub fn get_cf_opt(&self, cf: &ColumnFamilyRef, key: &[u8], readopts: &ReadOptions) -> (c: GetCall)
        ensures
            c.request()@ == self.get_request(Some(*cf), key@, readopts@),
    {
        GetCall { pinned: self.get_pinned_cf_opt(cf, key, readopts) }
    }

    /// Reads `key` with default read options.
    pub fn get(&self, key: &[u8]) -> (c: GetCall)
        ensures
            c.request()@ == self.get_request(None, key@, ReadOptions::default_view()),
    {
        self.get_opt(key, &ReadOptions::default())
    }

    /// Reads `key` with default read options, keeping the value pinned.
    pub fn get_pinned(&self, key: &[u8]) -> (c: PinnedGetCall)
        ensures
            c.request@ == self.get_request(None, key@, ReadOptions::default_view()),
    {
        self.get_pinned_opt(key, &ReadOptions::default())
    }

    /// Reads `key` in column family `cf` with default read options.
    pub fn get_cf(&self, cf: &ColumnFamilyRef, key: &[u8]) -> (c: GetCall)
        ensures
            c.request()@ == self.get_request(Some(*cf), key@, ReadOptions::default_view()),
    {
        self.get_cf_opt(cf, key, &ReadOptions::default())
    }

    /// Reads `key` in column family `cf` with default read options, keeping
    /// the value pinned.
    pub fn get_pinned_cf(&self, cf: &ColumnFamilyRef, key: &[u8]) -> (c: PinnedGetCall)
        ensures
            c.request@ == self.get_request(Some(*cf), key@, ReadOptions::default_view()),
    {
        self.get_pinned_cf_opt(cf, key, &ReadOptions::default())
    }

    /// Reads `key` and makes the transaction's commit depend on nobody else
    /// writing it after this read.
    pub fn get_pinned_for_update_opt(
        &self,
        key: &[u8],
        exclusive: bool,
        opts: &ReadOptions,
    ) -> (c: PinnedGetCall)
        ensures
            c.request@ == self.get_for_update_request(None, key@, exclusive, opts@),
    {
        self.pinned_read_for_update(None, key, exclusive, opts)
    }

    /// As `get_pinned_for_update_opt`, copying the value out.
    pub fn get_for_update_opt(&self, key: &[u8], exclusive: bool, opts: &ReadOptions) -> (c: GetCall)
        ensures
            c.request()@ == self.get_for_update_request(None, key@, exclusive, opts@),
    {
        GetCall { pinned: self.get_pinned_for_update_opt(key, exclusive, opts) }
    }

    /// As `get_pinned_for_update_opt`, in column family `cf`.
    pub fn get_pinned_for_update_cf_opt(
        &self,
        cf: &ColumnFamilyRef,
        key: &[u8],
        exclusive: bool,
        opts: &ReadOptions,
    ) -> (c: PinnedGetCall)
        ensures
            c.request@ == self.get_for_update_request(Some(*cf), key@, exclusive, opts@),
    {
        self.pinned_read_for_update(Some(*cf), key, exclusive, opts)
    }

    /// As `get_pinned_for_update_cf_opt`, copying the value out.
    pub fn get_for_update_cf_opt(
        &self,
        cf: &ColumnFamilyRef,
        key: &[u8],
        exclusive: bool,
        opts: &ReadOptions,
    ) -> (c: GetCall)
        ensures
            c.request()@ == self.get_for_update_request(Some(*cf), key@, exclusive, opts@),
    {
        GetCall { pinned: self.get_pinned_for_update_cf_opt(cf, key, exclusive, opts) }
    }

    /// `get_for_update_opt` with default read options.
    pub fn get_for_update(&self, key: &[u8], exclusive: bool) -> (c: GetCall)
        ensures
            c.request()@ == self.get_for_update_request(
                None,
                key@,
                exclusive,
                ReadOptions::default_view(),
            ),
    {
        self.get_for_update_opt(key, exclusive, &ReadOptions::default())
    }

    /// `get_pinned_for_update_opt` with default read options.
    pub fn get_pinned_for_update(&self, key: &[u8], exclusive: bool) -> (c: PinnedGetCall)
        ensures
            c.request@ == self.get_for_update_request(
                None,
                key@,
                exclusive,
                ReadOptions::default_view(),
            ),
    {
        self.get_pinned_for_update_opt(key, exclusive, &ReadOptions::default())
    }

    /// `get_for_update_cf_opt` with default read options.
    pub fn get_for_update_cf(&self, cf: &ColumnFamilyRef, key: &[u8], exclusive: bool) -> (c: GetCall)
        ensures
            c.request()@ == self.get_for_update_request(
                Some(*cf),
                key@,
                exclusive,
                ReadOptions::default_view(),
            ),
    {
        self.get_for_update_cf_opt(cf, key, exclusive, &ReadOptions::default())
    }

    /// `get_pinned_for_update_cf_opt` with default read options.
    pub fn get_pinned_for_update_cf(&self, cf: &ColumnFamilyRef, key: &[u8], exclusive: bool) -> (c:
        PinnedGetCall)
        ensures
            c.request@ == self.get_for_update_request(
                Some(*cf),
                key@,
                exclusive,
                ReadOptions::default_view(),
            ),
    {
        self.get_pinned_for_update_cf_opt(cf, key, exclusive, &ReadOptions::default())
    }
}


impl Transaction {
    /// Reads every key of `keys` with the given read options in one call.
    /// The engine is handed the keys in order, each with its length.
    pub fn multi_get_opt(&self, keys: Vec<Vec<u8>>, readopts: &ReadOptions) -> (c: MultiGetCall)
        ensures
            c.request@ == self.req(
                TxnCallView::MultiGet {
                    keys: byte_seqs(keys@),
                    keys_sizes: key_sizes(byte_seqs(keys@)),
                    readopts: readopts@,
                },
            ),
    {
        let mut keys_sizes: Vec<usize> = Vec::new();
        let mut i: usize = 0;
        while i < keys.len()
            invariant
                i <= keys.len(),
                keys_sizes.len() == i,
                forall|j: int| 0 <= j < i ==> #[trigger] keys_sizes[j] == keys[j].len(),
            decreases keys.len() - i,
        {
            keys_sizes.push(keys[i].len());
            i = i + 1;
        }
        assert(keys_sizes@ =~= key_sizes(byte_seqs(keys@)));
        let call = TxnCall::MultiGet { keys, keys_sizes, readopts: readopts.clone() };
        MultiGetCall { request: self.request(call) }
    }

    /// `multi_get_opt` with default read options.
    pub fn multi_get(&self, keys: Vec<Vec<u8>>) -> (c: MultiGetCall)
        ensures
            c.request@ == self.req(
                TxnCallView::MultiGet {
                    keys: byte_seqs(keys@),
                    keys_sizes: key_sizes(byte_seqs(keys@)),
                    readopts: ReadOptions::default_view(),
                },
            ),
    {
        self.multi_get_opt(keys, &ReadOptions::default())
    }

    /// Reads every `(column family, key)` pair of `keys` with the given read
    /// options in one call. The engine is handed the column families and the
    /// keys in order, each key with its length.
    pub fn multi_get_cf_opt(
        &self,
        keys: Vec<(ColumnFamilyRef, Vec<u8>)>,
        readopts: &ReadOptions,
    ) -> (c: MultiGetCall)
        ensures
            c.request@ == self.req(
                TxnCallView::MultiGetCf {
                    cfs: keys@.map_values(|p: (ColumnFamilyRef, Vec<u8>)| p.0),
                    keys: keys@.map_values(|p: (ColumnFamilyRef, Vec<u8>)| p.1@),
                    keys_sizes: key_sizes(keys@.map_values(|p: (ColumnFamilyRef, Vec<u8>)| p.1@)),
                    readopts: readopts@,
                },
            ),
    {
        let mut cfs: Vec<ColumnFamilyRef> = Vec::new();
        let mut ks: Vec<Vec<u8>> = Vec::new();
        let mut keys_sizes: Vec<usize> = Vec::new();
        let mut i: usize = 0;
        while i < keys.len()
            invariant
                i <= keys.len(),
                cfs.len() == i,
                ks.len() == i,
                keys_sizes.len() == i,
                forall|j: int| 0 <= j < i ==> #[trigger] cfs[j] == keys[j].0,
                forall|j: int| 0 <= j < i ==> (#[trigger] ks[j])@ == keys[j].1@,
                forall|j: int| 0 <= j < i ==> #[trigger] keys_sizes[j] == keys[j].1.len(),
            decreases keys.len() - i,
        {
            let (cf, key) = &keys[i];
            cfs.push(*cf);
            ks.push(slice_to_vec(key.as_slice()));
            keys_sizes.push(key.len());
            i = i + 1;
        }
        assert(cfs@ =~= keys@.map_values(|p: (ColumnFamilyRef, Vec<u8>)| p.0));
        assert(byte_seqs(ks@) =~= keys@.map_values(|p: (ColumnFamilyRef, Vec<u8>)| p.1@));
        assert(keys_sizes@ =~= key_sizes(keys@.map_values(|p: (ColumnFamilyRef, Vec<u8>)| p.1@)));
        let call = TxnCall::MultiGetCf { cfs, keys: ks, keys_sizes, readopts: readopts.clone() };
        MultiGetCall { request: self.request(call) }
    }

    /// `multi_get_cf_opt` with default read options.
    pub fn multi_get_cf(&self, keys: Vec<(ColumnFamilyRef, Vec<u8>)>) -> (c: MultiGetCall)
        ensures
            c.request@ == self.req(
                TxnCallView::MultiGetCf {
                    cfs: keys@.map_values(|p: (ColumnFamilyRef, Vec<u8>)| p.0),
                    keys: keys@.map_values(|p: (ColumnFamilyRef, Vec<u8>)| p.1@),
                    keys_sizes: key_sizes(keys@.map_values(|p: (ColumnFamilyRef, Vec<u8>)| p.1@)),
                    readopts: ReadOptions::default_view(),
                },
            ),
    {
        self.multi_get_cf_opt(keys, &ReadOptions::default())
    }

    /// Writes `value` for `key` in the default column family, with conflict
    /// checking on the key.
    pub fn put(&self, key: &[u8], value: &[u8]) -> (c: StatusCall)
        ensures
            c.request@ == self.req(TxnCallView::Put { cf: None, key: key@, value: value@ }),
    {
        self.status(TxnCall::Put { cf: None, key: slice_to_vec(key), value: slice_to_vec(value) })
    }

    /// Writes `value` for `key` in column family `cf`, with conflict checking.
    pub fn put_cf(&self, cf: &ColumnFamilyRef, key: &[u8], value: &[u8]) -> (c: StatusCall)
        ensures
            c.request@ == self.req(TxnCallView::Put { cf: Some(*cf), key: key@, value: value@ }),
    {
        self.status(
            TxnCall::Put { cf: Some(*cf), key: slice_to_vec(key), value: slice_to_vec(value) },
        )
    }

    /// Merges `value` into the value of `key`, with conflict checking.
    pub fn merge(&self, key: &[u8], value: &[u8]) -> (c: StatusCall)
        ensures
            c.request@ == self.req(TxnCallView::Merge { cf: None, key: key@, value: value@ }),
    {
        self.status(TxnCall::Merge { cf: None, key: slice_to_vec(key), value: slice_to_vec(value) })
    }

    /// Merges `value` into the value of `key` in column family `cf`.
    pub fn merge_cf(&self, cf: &ColumnFamilyRef, key: &[u8], value: &[u8]) -> (c: StatusCall)
        ensures
            c.request@ == self.req(TxnCallView::Merge { cf: Some(*cf), key: key@, value: value@ }),
    {
        self.status(
            TxnCall::Merge { cf: Some(*cf), key: slice_to_vec(key), value: slice_to_vec(value) },
        )
    }

    /// Deletes `key`, with conflict checking.
    pub fn delete(&self, key: &[u8]) -> (c: StatusCall)
        ensures
            c.request@ == self.req(TxnCallView::Delete { cf: None, key: key@ }),
    {
        self.status(TxnCall::Delete { cf: None, key: slice_to_vec(key) })
    }

    /// Deletes `key` in column family `cf`, with conflict checking.
    pub fn delete_cf(&self, cf: &ColumnFamilyRef, key: &[u8]) -> (c: StatusCall)
        ensures
            c.request@ == self.req(TxnCallView::Delete { cf: Some(*cf), key: key@ }),
    {
        self.status(TxnCall::Delete { cf: Some(*cf), key: slice_to_vec(key) })
    }

    fn new_iterator(
        &self,
        cf: Option<ColumnFamilyRef>,
        readopts: ReadOptions,
        mode: Option<IteratorMode>,
    ) -> (r: TxnRequest)
        ensures
            r@ == self.iterator_request(
                cf,
                readopts@,
                match mode {
                    Some(m) => Some(m@),
                    None => None,
                },
            ),
    {
        self.request(TxnCall::CreateIterator { cf, readopts, mode })
    }

    /// An iterator positioned by `mode`, with the given read options.
    pub fn iterator_opt(&self, mode: IteratorMode, readopts: ReadOptions) -> (r: TxnRequest)
        ensures
            r@ == self.iterator_request(None, readopts@, Some(mode@)),
    {
        self.new_iterator(None, readopts, Some(mode))
    }

    /// An iterator positioned by `mode`, with default read options.
    pub fn iterator(&self, mode: IteratorMode) -> (r: TxnRequest)
        ensures
            r@ == self.iterator_request(None, ReadOptions::default_view(), Some(mode@)),
    {
        let readopts = ReadOptions::default();
        self.iterator_opt(mode, readopts)
    }

    /// An iterator over column family `cf`, with the given read options.
    pub fn iterator_cf_opt(&self, cf_handle: &ColumnFamilyRef, readopts: ReadOptions, mode: IteratorMode) -> (r:
        TxnRequest)
        ensures
            r@ == self.iterator_request(Some(*cf_handle), readopts@, Some(mode@)),
    {
        self.new_iterator(Some(*cf_handle), readopts, Some(mode))
    }

    /// An iterator with total-order seek, which crosses prefixes even when
    /// the memtable is hash-based.
    pub fn full_iterator(&self, mode: IteratorMode) -> (r: TxnRequest)
        ensures
            r@ == self.iterator_request(
                None,
                ReadOptionsView { total_order_seek: true, ..ReadOptions::default_view() },
                Some(mode@),
            ),
    {
        let mut opts = ReadOptions::default();
        opts.set_total_order_seek(true);
        self.new_iterator(None, opts, Some(mode))
    }

    /// A forward iterator from `prefix` that stays within keys of the same prefix.
    pub fn prefix_iterator(&self, prefix: &[u8]) -> (r: TxnRequest)
        ensures
            r@ == self.iterator_request(
                None,
                ReadOptionsView { prefix_same_as_start: true, ..ReadOptions::default_view() },
                Some(IteratorModeView::From(prefix@, Direction::Forward)),
            ),
    {
        let mut opts = ReadOptions::default();
        opts.set_prefix_same_as_start(true);
        self.new_iterator(None, opts, Some(IteratorMode::From(slice_to_vec(prefix), Direction::Forward)))
    }

    /// An iterator over column family `cf`, with default read options.
    pub fn iterator_cf(&self, cf_handle: &ColumnFamilyRef, mode: IteratorMode) -> (r: TxnRequest)
        ensures
            r@ == self.iterator_request(Some(*cf_handle), ReadOptions::default_view(), Some(mode@)),
    {
        let opts = ReadOptions::default();
        self.new_iterator(Some(*cf_handle), opts, Some(mode))
    }

    /// An iterator over column family `cf` with total-order seek.
    pub fn full_iterator_cf(&self, cf_handle: &ColumnFamilyRef, mode: IteratorMode) -> (r: TxnRequest)
        ensures
            r@ == self.iterator_request(
                Some(*cf_handle),
                ReadOptionsView { total_order_seek: true, ..ReadOptions::default_view() },
                Some(mode@),
            ),
    {
        let mut opts = ReadOptions::default();
        opts.set_total_order_seek(true);
        self.new_iterator(Some(*cf_handle), opts, Some(mode))
    }

    /// A forward iterator over column family `cf` from `prefix` that stays
    /// within keys of the same prefix.
    pub fn prefix_iterator_cf(&self, cf_handle: &ColumnFamilyRef, prefix: &[u8]) -> (r: TxnRequest)
        ensures
            r@ == self.iterator_request(
                Some(*cf_handle),
                ReadOptionsView { prefix_same_as_start: true, ..ReadOptions::default_view() },
                Some(IteratorModeView::From(prefix@, Direction::Forward)),
            ),
    {
        let mut opts = ReadOptions::default();
        opts.set_prefix_same_as_start(true);
        self.new_iterator(
            Some(*cf_handle),
            opts,
            Some(IteratorMode::From(slice_to_vec(prefix), Direction::Forward)),
        )
    }

    /// A raw, unpositioned iterator with default read options.
    pub fn raw_iterator(&self) -> (r: TxnRequest)
        ensures
            r@ == self.iterator_request(None, ReadOptions::default_view(), None),
    {
        let opts = ReadOptions::default();
        self.new_iterator(None, opts, None)
    }

    /// A raw iterator over column family `cf` with default read options.
    pub fn raw_iterator_cf(&self, cf_handle: &ColumnFamilyRef) -> (r: TxnRequest)
        ensures
            r@ == self.iterator_request(Some(*cf_handle), ReadOptions::default_view(), None),
    {
        let opts = ReadOptions::default();
        self.new_iterator(Some(*cf_handle), opts, None)
    }

    /// A raw iterator with the given read options.
    pub fn raw_iterator_opt(&self, readopts: ReadOptions) -> (r: TxnRequest)
        ensures
            r@ == self.iterator_request(None, readopts@, None),
    {
        self.new_iterator(None, readopts, None)
    }

    /// A raw iterator over column family `cf` with the given read options.
    pub fn raw_iterator_cf_opt(&self, cf_handle: &ColumnFamilyRef, readopts: ReadOptions) -> (r:
        TxnRequest)
        ensures
            r@ == self.iterator_request(Some(*cf_handle), readopts@, None),
    {
        self.new_iterator(Some(*cf_handle), readopts, None)
    }

    /// Asks for a copy of the transaction's pending writes; the engine's
    /// reply is the batch's serialized contents (see
    /// [`WriteBatchWithTransaction::from_data`]).
    pub fn get_writebatch(&self) -> (r: TxnRequest)
        ensures
            r@ == self.req(TxnCallView::GetWriteBatch),
    {
        self.request(TxnCall::GetWriteBatch)
    }

    /// Replaces the transaction's pending writes with those of `writebatch`.
    pub fn rebuild_from_writebatch(&self, writebatch: &WriteBatchWithTransaction) -> (c: StatusCall)
        ensures
            c.request@ == self.req(TxnCallView::RebuildFromWriteBatch(writebatch@)),
    {
        self.status(TxnCall::RebuildFromWriteBatch(slice_to_vec(writebatch.data())))
    }
}

} // verus!
