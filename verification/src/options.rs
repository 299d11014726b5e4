use vstd::prelude::*;
use vstd::slice::slice_to_vec;

verus! {

/// The direction in which an iterator walks from its starting key.
#[derive(Clone, Copy, PartialEq, Eq, Structural, Debug)]
pub enum Direction {
    Forward,
    Reverse,
}

/// Where an iterator starts.
pub enum IteratorMode {
    /// At the first key.
    Start,
    /// At the last key.
    End,
    /// At the given key, walking in the given direction.
    From(Vec<u8>, Direction),
}

/// The mathematical value of an [`IteratorMode`].
pub enum IteratorModeView {
    Start,
    End,
    From(Seq<u8>, Direction),
}

impl View for IteratorMode {
    type V = IteratorModeView;

    open spec fn view(&self) -> IteratorModeView {
        match self {
            IteratorMode::Start => IteratorModeView::Start,
            IteratorMode::End => IteratorModeView::End,
            IteratorMode::From(key, dir) => IteratorModeView::From(key@, *dir),
        }
    }
}

/// A column family of an open database, named by the engine's handle for it.
#[derive(Clone, Copy, PartialEq, Eq, Structural, Debug)]
pub struct ColumnFamilyRef {
    pub inner: usize,
}

impl ColumnFamilyRef {
    /// The engine's handle for this column family.
    pub fn inner(&self) -> (h: usize)
        ensures
            h == self.inner,
    {
        self.inner
    }
}

/// The read settings that this layer chooses or passes on.
pub struct ReadOptions {
    total_order_seek: bool,
    prefix_same_as_start: bool,
    timestamp: Option<Vec<u8>>,
}

/// The mathematical value of [`ReadOptions`].
pub struct ReadOptionsView {
    pub total_order_seek: bool,
    pub prefix_same_as_start: bool,
    pub timestamp: Option<Seq<u8>>,
}

impl View for ReadOptions {
    type V = ReadOptionsView;

    closed spec fn view(&self) -> ReadOptionsView {
        ReadOptionsView {
            total_order_seek: self.total_order_seek,
            prefix_same_as_start: self.prefix_same_as_start,
            timestamp: match self.timestamp {
                Some(ts) => Some(ts@),
                None => None,
            },
        }
    }
}

impl ReadOptions {
    /// The settings of a fresh `ReadOptions`: no total-order seek, no
    /// prefix restriction, no read timestamp (the latest version is read).
    pub open spec fn default_view() -> ReadOptionsView {
        ReadOptionsView { total_order_seek: false, prefix_same_as_start: false, timestamp: None }
    }

    /// Fresh read options read the latest version (no read timestamp), seek
    /// by prefix as the column family's extractor allows, and do not stop at
    /// the end of a prefix.
    pub proof fn default_reads_latest()
        ensures
            ReadOptions::default_view().timestamp is None,
            !ReadOptions::default_view().total_order_seek,
            !ReadOptions::default_view().prefix_same_as_start,
    {
    }

    /// Makes iterators ignore any prefix extractor and walk in total order.
    pub fn set_total_order_seek(&mut self, v: bool)
        ensures
            final(self)@ == (ReadOptionsView { total_order_seek: v, ..old(self)@ }),
    {
        self.total_order_seek = v;
    }

    /// Makes iterators stop at the end of the prefix of their starting key.
    pub fn set_prefix_same_as_start(&mut self, v: bool)
        ensures
            final(self)@ == (ReadOptionsView { prefix_same_as_start: v, ..old(self)@ }),
    {
        self.prefix_same_as_start = v;
    }

    /// Reads the newest version whose commit timestamp is at most `ts`
    /// (the timestamp's bytes, in the column family's encoding).
    pub fn set_timestamp(&mut self, ts: Vec<u8>)
        ensures
            final(self)@ == (ReadOptionsView { timestamp: Some(ts@), ..old(self)@ }),
    {
        self.timestamp = Some(ts);
    }

    /// Whether total-order seek is set.
    pub fn total_order_seek(&self) -> (b: bool)
        ensures
            b == self@.total_order_seek,
    {
        self.total_order_seek
    }

    /// Whether iteration is restricted to the starting key's prefix.
    pub fn prefix_same_as_start(&self) -> (b: bool)
        ensures
            b == self@.prefix_same_as_start,
    {
        self.prefix_same_as_start
    }

    /// The read timestamp, if one is set.
    pub fn timestamp(&self) -> (ts: Option<&[u8]>)
        ensures
            match ts {
                Some(t) => self@.timestamp == Some(t@),
                None => self@.timestamp is None,
            },
    {
        match &self.timestamp {
            Some(t) => Some(t.as_slice()),
            None => None,
        }
    }
}

impl Default for ReadOptions {
    fn default() -> (r: ReadOptions)
        ensures
            r@ == ReadOptions::default_view(),
    {
        ReadOptions { total_order_seek: false, prefix_same_as_start: false, timestamp: None }
    }
}

impl Clone for ReadOptions {
    fn clone(&self) -> (r: ReadOptions)
        ensures
            r@ == self@,
    {
        let timestamp = match &self.timestamp {
            Some(t) => Some(slice_to_vec(t.as_slice())),
            None => None,
        };
        ReadOptions {
            total_order_seek: self.total_order_seek,
            prefix_same_as_start: self.prefix_same_as_start,
            timestamp,
        }
    }
}

} // verus!
