//! Information on pstoedit drivers.
//!
//! pstoedit hands out its drivers as an array of records whose end is marked
//! by a record without a symbolic name. [`DriverInfo`] holds such an array and
//! [`Iter`] walks it up to that mark, yielding a [`DriverDescription`] for
//! each driver.
use vstd::prelude::*;
use vstd::string::StringSliceAdditionalSpecFns;
use vstd::utf8::valid_utf8;

use crate::error::{Error, Result};

verus! {

/// One record of pstoedit's driver array, with its strings as bytes.
///
/// A record whose `symbolic_name` is `None` marks the end of the array.
#[derive(Clone, Debug)]
pub struct DriverRecord {
    /// Symbolic name that identifies the driver.
    pub symbolic_name: Option<Vec<u8>>,
    /// File name extension of the driver's output.
    pub suffix: Vec<u8>,
    /// Short explanation of the driver.
    pub explanation: Vec<u8>,
    /// Additional information, often empty.
    pub additional_info: Vec<u8>,
    /// Non-zero when the backend supports subpaths.
    pub subpaths: i32,
    /// Non-zero when the backend supports curveto.
    pub curveto: i32,
    /// Non-zero when the backend supports merging.
    pub merging: i32,
    /// Non-zero when the backend supports text.
    pub text: i32,
    /// Non-zero when the backend supports images.
    pub images: i32,
    /// Non-zero when the backend supports multiple pages.
    pub multiple_pages: i32,
    /// Format group of the driver; pstoedit reports one from version 4.00 on.
    pub format_group: Option<i32>,
}

/// Format group of a pstoedit driver.
///
/// Driver-specific options of pstoedit belong to a format group; all drivers
/// of one group have equal values.
#[derive(Clone, Copy, Debug, PartialEq, Eq, Structural, Hash)]
pub struct FormatGroup(pub i32);

/// Relies on `std::str::from_utf8`: it accepts exactly the valid UTF-8 byte
/// sequences and then views the same bytes as text.
#[verifier::external_body]
fn utf8(bytes: &[u8]) -> (r: core::result::Result<&str, std::str::Utf8Error>)
    ensures
        r is Ok <==> valid_utf8(bytes@),
        r matches Ok(s) ==> s.spec_bytes() == bytes@,
{
    std::str::from_utf8(bytes)
}

/// Reads the bytes of a driver string as text.
fn text(bytes: &Vec<u8>) -> (r: Result<&str>)
    ensures
        r is Ok <==> valid_utf8(bytes@),
        r matches Ok(s) ==> s.spec_bytes() == bytes@,
        r matches Err(e) ==> e is Utf8Error,
{
    match utf8(bytes.as_slice()) {
        Ok(s) => Ok(s),
        Err(e) => Err(Error::Utf8Error(e)),
    }
}

/// Description of one pstoedit driver, borrowed from a [`DriverInfo`].
///
/// The text accessors fail with `Utf8Error` when pstoedit hands out bytes
/// that are not UTF-8, which only non-standard drivers do.
#[derive(Clone, Copy)]
pub struct DriverDescription<'a> {
    record: &'a DriverRecord,
    name: &'a Vec<u8>,
}

impl<'a> DriverDescription<'a> {
    /// The record that this description reads.
    pub closed spec fn record(self) -> DriverRecord {
        *self.record
    }

    /// The bytes of the symbolic name.
    pub closed spec fn name(self) -> Seq<u8> {
        self.name@
    }

    /// File name extension associated with the driver.
    pub fn extension(self) -> (r: Result<&'a str>)
        ensures
            r is Ok <==> valid_utf8(self.record().suffix@),
            r matches Ok(s) ==> s.spec_bytes() == self.record().suffix@,
            r matches Err(e) ==> e is Utf8Error,
    {
        text(&self.record.suffix)
    }

    /// Symbolic name that uniquely identifies the driver.
    pub fn symbolic_name(self) -> (r: Result<&'a str>)
        ensures
            r is Ok <==> valid_utf8(self.name()),
            r matches Ok(s) ==> s.spec_bytes() == self.name(),
            r matches Err(e) ==> e is Utf8Error,
    {
        text(self.name)
    }

    /// Short explanation of the driver.
    pub fn explanation(self) -> (r: Result<&'a str>)
        ensures
            r is Ok <==> valid_utf8(self.record().explanation@),
            r matches Ok(s) ==> s.spec_bytes() == self.record().explanation@,
            r matches Err(e) ==> e is Utf8Error,
    {
        text(&self.record.explanation)
    }

    /// Additional information about the driver; often an empty string.
    pub fn additional_info(self) -> (r: Result<&'a str>)
        ensures
            r is Ok <==> valid_utf8(self.record().additional_info@),
            r matches Ok(s) ==> s.spec_bytes() == self.record().additional_info@,
            r matches Err(e) ==> e is Utf8Error,
    {
        text(&self.record.additional_info)
    }

    /// Whether the backend supports subpaths.
    pub fn subpath_support(self) -> (r: bool)
        ensures
            r == (self.record().subpaths != 0),
    {
        self.record.subpaths != 0
    }

    /// Whether the backend supports curveto.
    pub fn curveto_support(self) -> (r: bool)
        ensures
            r == (self.record().curveto != 0),
    {
        self.record.curveto != 0
    }

    /// Whether the backend supports merging.
    pub fn merging_support(self) -> (r: bool)
        ensures
            r == (self.record().merging != 0),
    {
        self.record.merging != 0
    }

    /// Whether the backend supports text.
    pub fn text_support(self) -> (r: bool)
        ensures
            r == (self.record().text != 0),
    {
        self.record.text != 0
    }

    /// Whether the backend supports images.
    pub fn image_support(self) -> (r: bool)
        ensures
            r == (self.record().images != 0),
    {
        self.record.images != 0
    }

    /// Whether the backend supports multiple pages.
    pub fn multipage_support(self) -> (r: bool)
        ensures
            r == (self.record().multiple_pages != 0),
    {
        self.record.multiple_pages != 0
    }

    /// Format group of the driver, where pstoedit reports one.
    pub fn format_group(self) -> (r: Option<FormatGroup>)
        ensures
            r is Some <==> self.record().format_group is Some,
            r matches Some(g) ==> g.0 == self.record().format_group->Some_0,
    {
        match self.record.format_group {
            Some(g) => Some(FormatGroup(g)),
            None => None,
        }
    }
}

/// Index of the first record at or after `i` that marks the end of the
/// array, or the array's length when none does.
pub open spec fn end_from(records: Seq<DriverRecord>, i: int) -> int
    decreases records.len() - i,
{
    if i < 0 || i >= records.len() {
        records.len() as int
    } else if records[i].symbolic_name is None {
        i
    } else {
        end_from(records, i + 1)
    }
}

/// The drivers of an array of records: those before the end mark.
pub open spec fn drivers_of(records: Seq<DriverRecord>) -> Seq<DriverRecord> {
    records.take(end_from(records, 0))
}

/// What [`end_from`] finds: every record before it names a driver, and it is
/// the end mark or the array's length.
pub proof fn lemma_end_from(records: Seq<DriverRecord>, i: int)
    requires
        0 <= i <= records.len(),
    ensures
        i <= end_from(records, i) <= records.len(),
        forall|j: int| i <= j < end_from(records, i) ==> records[j].symbolic_name is Some,
        end_from(records, i) < records.len() ==> records[end_from(records, i)].symbolic_name is None,
    decreases records.len() - i,
{
    if i < records.len() && records[i].symbolic_name is Some {
        lemma_end_from(records, i + 1);
    }
}

/// Driver information handed out by pstoedit: an array of driver records
/// ended by a record without a symbolic name.
pub struct DriverInfo {
    records: Vec<DriverRecord>,
}

impl DriverInfo {
    /// The records as pstoedit handed them out, end mark included.
    pub closed spec fn records(&self) -> Seq<DriverRecord> {
        self.records@
    }

    /// The drivers, in array order.
    pub open spec fn drivers(&self) -> Seq<DriverRecord> {
        drivers_of(self.records())
    }

    /// Takes what pstoedit's driver inquiry returned: `None` stands for the
    /// null pointer it returns when the connection was not initialized.
    pub fn from_native(records: Option<Vec<DriverRecord>>) -> (r: Result<Self>)
        ensures
            r is Ok <==> records is Some,
            r matches Ok(info) ==> info.records() == records->Some_0@,
            r matches Err(e) ==> e is NotInitialized,
    {
        match records {
            Some(records) => Ok(DriverInfo { records }),
            None => Err(Error::NotInitialized),
        }
    }

    /// Starts a traversal of the drivers, from the first one.
    pub fn iter(&self) -> (r: Iter<'_>)
        ensures
            r.info() == *self,
            r.offset() == 0,
            r.wf(),
    {
        Iter { driver_info: self, offset: 0 }
    }
}

/// The result of one step of a traversal of `drivers` at `offset`: the driver
/// there, if any, and the offset after the step.
pub open spec fn step(drivers: Seq<DriverRecord>, offset: nat) -> (Option<DriverRecord>, nat) {
    if offset < drivers.len() {
        (Some(drivers[offset as int]), offset + 1)
    } else {
        (None, offset)
    }
}

/// The drivers that `k` steps of a traversal of `drivers` from `offset`
/// yield, in order.
pub open spec fn yielded(drivers: Seq<DriverRecord>, offset: nat, k: nat) -> Seq<DriverRecord>
    decreases k,
{
    if k == 0 {
        Seq::empty()
    } else {
        let (d, next) = step(drivers, offset);
        match d {
            Some(x) => seq![x] + yielded(drivers, next, (k - 1) as nat),
            None => Seq::empty(),
        }
    }
}

/// A traversal can be started again and again: whatever traversals came
/// before, the first `k` steps of a new one yield the first `k` drivers in
/// array order (all of them once `k` reaches their number).
pub proof fn lemma_traversal_restartable(info: DriverInfo, k: nat)
    ensures
        yielded(info.drivers(), 0, k) == info.drivers().take(
            if k <= info.drivers().len() { k as int } else { info.drivers().len() as int },
        ),
{
    lemma_yielded(info.drivers(), 0, k);
}

proof fn lemma_yielded(drivers: Seq<DriverRecord>, offset: nat, k: nat)
    requires
        offset <= drivers.len(),
    ensures
        yielded(drivers, offset, k) == drivers.subrange(
            offset as int,
            if offset + k <= drivers.len() { (offset + k) as int } else { drivers.len() as int },
        ),
    decreases k,
{
    if k > 0 && offset < drivers.len() {
        lemma_yielded(drivers, offset + 1, (k - 1) as nat);
        let hi = if offset + k <= drivers.len() { (offset + k) as int } else { drivers.len() as int };
        assert(seq![drivers[offset as int]] + drivers.subrange(offset + 1 as int, hi) =~= drivers.subrange(offset as int, hi));
    } else {
        assert(drivers.subrange(offset as int, offset as int) =~= Seq::<DriverRecord>::empty());
    }
}

/// A traversal of the drivers of a [`DriverInfo`], yielding a
/// [`DriverDescription`] for each one.
pub struct Iter<'a> {
    driver_info: &'a DriverInfo,
    offset: usize,
}

impl<'a> Iter<'a> {
    /// The driver information walked.
    pub closed spec fn info(&self) -> DriverInfo {
        *self.driver_info
    }

    /// The number of drivers yielded so far.
    pub closed spec fn offset(&self) -> nat {
        self.offset as nat
    }

    /// The traversal has not gone past the end mark.
    pub open spec fn wf(&self) -> bool {
        self.offset() <= self.info().drivers().len()
    }

    /// Yields the next driver, or `None` once the end mark is reached; it then
    /// stays there.
    pub fn next(&mut self) -> (r: Option<DriverDescription<'a>>)
        requires
            old(self).wf(),
        ensures
            final(self).wf(),
            final(self).info() == old(self).info(),
            (
                match r {
                    Some(d) => Some(d.record()),
                    None => None,
                },
                final(self).offset(),
            ) == step(old(self).info().drivers(), old(self).offset()),
            r matches Some(d) ==> (d.record().symbolic_name matches Some(n) && n@ == d.name()),
    {
        let info: &'a DriverInfo = self.driver_info;
        proof {
            lemma_end_from(info.records@, 0);
        }
        if self.offset >= info.records.len() {
            return None;
        }
        let record: &'a DriverRecord = &info.records[self.offset];
        match &record.symbolic_name {
            Some(name) => {
                self.offset = self.offset + 1;
                Some(DriverDescription { record, name })
            },
            None => None,
        }
    }
}

} // verus!
