use vstd::prelude::*;
use vstd::utf8::{decode_utf8, encode_utf8, valid_utf8};

use crate::error::SyncError;
use crate::manifest::ManifestEntryV2;
use crate::path::{valid_sync_path, SyncPath, SyncPathError};
use crate::text::{chars_eq, chars_of, decimal, decimal_chars, push_chars};

verus! {

/// A workspace write that failed, and whether it had already touched the target.
#[derive(Debug)]
pub struct WorkspaceWriteError {
    error: SyncError,
    target_changed: bool,
}

impl WorkspaceWriteError {
    pub closed spec fn error_of(&self) -> SyncError {
        self.error
    }

    pub closed spec fn changed_target(&self) -> bool {
        self.target_changed
    }

    /// A failure that left the target untouched.
    pub fn unchanged(error: SyncError) -> (e: Self)
        ensures
            e.error_of() == error,
            !e.changed_target(),
    {
        Self { error, target_changed: false }
    }

    /// A failure after the target was touched.
    pub fn changed(error: SyncError) -> (e: Self)
        ensures
            e.error_of() == error,
            e.changed_target(),
    {
        Self { error, target_changed: true }
    }

    pub fn target_changed(&self) -> (b: bool)
        ensures
            b == self.changed_target(),
    {
        self.target_changed
    }

    pub fn into_error(self) -> (e: SyncError)
        ensures
            e == self.error_of(),
    {
        self.error
    }
}

/// A workspace that cannot hold databases refuses a selection that names the
/// database dataset.
pub fn check_database_scope(dataset_ids: &Vec<String>, database_dataset_id: &str) -> (r: Result<(), SyncError>)
    ensures
        r is Ok <==> !crate::engine::texts(dataset_ids@).contains(database_dataset_id@),
        r matches Err(e) ==> (e matches SyncError::InvalidData(m)
            && m@ == "This storage does not support database synchronization"@),
{
    let want = chars_of(database_dataset_id);
    let mut i: usize = 0;
    while i < dataset_ids.len()
        invariant
            i <= dataset_ids@.len(),
            want@ == database_dataset_id@,
            forall|j: int| 0 <= j < i ==> dataset_ids@[j]@ != database_dataset_id@,
        decreases dataset_ids@.len() - i,
    {
        let id = chars_of(dataset_ids[i].as_str());
        if chars_eq(id.as_slice(), want.as_slice()) {
            assert(crate::engine::texts(dataset_ids@)[i as int] == database_dataset_id@);
            return Err(SyncError::InvalidData(
                "This storage does not support database synchronization".to_string(),
            ));
        }
        i = i + 1;
    }
    proof {
        if crate::engine::texts(dataset_ids@).contains(database_dataset_id@) {
            let k = choose|k: int|
                0 <= k < crate::engine::texts(dataset_ids@).len() && crate::engine::texts(
                    dataset_ids@,
                )[k] == database_dataset_id@;
            assert(dataset_ids@[k]@ == database_dataset_id@);
        }
    }
    Ok(())
}

/// A file of a bundle that has been written.
#[derive(Debug)]
pub struct BundleFileProgress {
    pub path: String,
    pub size_bytes: u64,
}

/// A bundle that could not be written, and whether the target was touched.
#[derive(Debug)]
pub struct BundleWriteError {
    error: SyncError,
    target_changed: bool,
}

impl BundleWriteError {
    pub closed spec fn error_of(&self) -> SyncError {
        self.error
    }

    pub closed spec fn changed_target(&self) -> bool {
        self.target_changed
    }

    pub fn unchanged(error: SyncError) -> (e: Self)
        ensures
            e.error_of() == error,
            !e.changed_target(),
    {
        Self { error, target_changed: false }
    }

    pub fn from_workspace(error: WorkspaceWriteError) -> (e: Self)
        ensures
            e.error_of() == error.error_of(),
            e.changed_target() == error.changed_target(),
    {
        let target_changed = error.target_changed();
        Self { target_changed, error: error.into_error() }
    }

    pub fn target_changed(&self) -> (b: bool)
        ensures
            b == self.changed_target(),
    {
        self.target_changed
    }

    pub fn into_error(self) -> (e: SyncError)
        ensures
            e == self.error_of(),
    {
        self.error
    }
}

/// The four bytes of `n`, most significant first.
pub open spec fn be_bytes(n: u32) -> Seq<u8> {
    seq![
        (n / 0x100_0000) as u8,
        ((n / 0x1_0000) % 0x100) as u8,
        ((n / 0x100) % 0x100) as u8,
        (n % 0x100) as u8,
    ]
}

/// The number that four bytes write, most significant first.
pub open spec fn be_value(b: Seq<u8>) -> u32 {
    (b[0] * 0x100_0000 + b[1] * 0x1_0000 + b[2] * 0x100 + b[3]) as u32
}

/// Reading back the four bytes of a number gives the number.
pub proof fn lemma_be_roundtrip(n: u32)
    ensures
        be_value(be_bytes(n)) == n,
{
}

pub fn u32_to_be(n: u32) -> (b: Vec<u8>)
    ensures
        b@ == be_bytes(n),
{
    let mut b: Vec<u8> = Vec::new();
    b.push((n / 0x100_0000) as u8);
    b.push(((n / 0x1_0000) % 0x100) as u8);
    b.push(((n / 0x100) % 0x100) as u8);
    b.push((n % 0x100) as u8);
    assert(b@ =~= be_bytes(n));
    b
}

pub fn u32_from_be(b: &[u8]) -> (n: u32)
    requires
        b@.len() == 4,
    ensures
        n == be_value(b@),
{
    (b[0] as u32) * 0x100_0000 + (b[1] as u32) * 0x1_0000 + (b[2] as u32) * 0x100 + (b[3] as u32)
}

/// The header that closes a bundle: a zero path length.
pub fn bundle_terminator() -> (b: Vec<u8>)
    ensures
        b@ == be_bytes(0),
{
    u32_to_be(0)
}

/// The header of one file of a bundle: the length of its path, in four bytes
/// most significant first, then the path's UTF-8 bytes; the file's bytes
/// follow it. A path longer than `max_path_len` bytes is refused.
pub fn encode_frame_header(path: &SyncPath, max_path_len: u32) -> (r: Result<Vec<u8>, SyncError>)
    ensures
        encode_utf8(path@).len() <= max_path_len ==> (r matches Ok(b) && b@ == be_bytes(
            encode_utf8(path@).len() as u32,
        ) + encode_utf8(path@)),
        encode_utf8(path@).len() > max_path_len ==> (r matches Err(SyncError::InvalidData(_))),
{
    let bytes = path.as_str().as_bytes();
    if bytes.len() > max_path_len as usize {
        let mut m = "bundle path is too long to encode".to_string();
        if bytes.len() <= u32::MAX as usize {
            m.append(": ");
            let d = decimal_chars(bytes.len() as u64);
            push_chars(&mut m, d.as_slice());
            m.append(" bytes");
        }
        return Err(SyncError::InvalidData(m));
    }
    let mut out = u32_to_be(bytes.len() as u32);
    let mut i: usize = 0;
    let ghost start = out@;
    while i < bytes.len()
        invariant
            i <= bytes@.len(),
            out@ == start + bytes@.take(i as int),
        decreases bytes@.len() - i,
    {
        out.push(bytes[i]);
        i = i + 1;
        assert(out@ =~= start + bytes@.take(i as int));
    }
    assert(bytes@.take(bytes@.len() as int) =~= bytes@);
    Ok(out)
}

/// A frame header read back gives what it was written for: its first four
/// bytes give the length of the path, which is not zero and within the limit,
/// so a reader takes it for a file; the bytes after them are UTF-8 and decode
/// to the path.
pub proof fn lemma_frame_header_roundtrip(path: Seq<char>, max_path_len: u32)
    requires
        valid_sync_path(path),
        encode_utf8(path).len() <= max_path_len,
    ensures
        ({
            let n = encode_utf8(path).len();
            let b = be_bytes(n as u32) + encode_utf8(path);
            &&& be_value(b.take(4)) == n
            &&& 0 < be_value(b.take(4)) <= max_path_len
            &&& valid_utf8(b.skip(4))
            &&& decode_utf8(b.skip(4)) == path
        }),
{
    let n = encode_utf8(path).len();
    let b = be_bytes(n as u32) + encode_utf8(path);
    vstd::utf8::encode_utf8_decode_utf8(path);
    vstd::utf8::encode_utf8_valid_utf8(path);
    assert(b.take(4) =~= be_bytes(n as u32));
    assert(b.skip(4) =~= encode_utf8(path));
    lemma_be_roundtrip(n as u32);
    if n == 0 {
        assert(encode_utf8(path) =~= Seq::<u8>::empty());
        assert(decode_utf8(Seq::<u8>::empty()) =~= Seq::<char>::empty());
    }
}

/// The entries of a plan keyed by path; a later entry for a path replaces an
/// earlier one.
pub open spec fn entry_map(s: Seq<ManifestEntryV2>) -> Map<Seq<char>, ManifestEntryV2>
    decreases s.len(),
{
    if s.len() == 0 {
        Map::empty()
    } else {
        entry_map(s.drop_last()).insert(s.last().path@, s.last())
    }
}

/// No two entries share a path.
pub open spec fn distinct_paths(s: Seq<ManifestEntryV2>) -> bool {
    forall|i: int, j: int| 0 <= i < s.len() && 0 <= j < s.len() && i != j ==> s[i].path@ != s[j].path@
}

proof fn lemma_entry_map_domain(s: Seq<ManifestEntryV2>)
    ensures
        forall|p: Seq<char>| #[trigger] entry_map(s).contains_key(p) <==> exists|i: int| 0 <= i < s.len() && s[i].path@ == p,
    decreases s.len(),
{
    if s.len() > 0 {
        let t = s.drop_last();
        let n = s.len() - 1;
        lemma_entry_map_domain(t);
        assert forall|p: Seq<char>| #[trigger] entry_map(s).contains_key(p) implies exists|i: int| 0 <= i < s.len() && s[i].path@ == p by {
            if p == s[n].path@ {
                assert(s[n].path@ == p);
            } else {
                assert(entry_map(t).contains_key(p));
                let i = choose|i: int| 0 <= i < t.len() && t[i].path@ == p;
                assert(s[i] == t[i]);
            }
        }
        assert forall|p: Seq<char>| (exists|i: int| 0 <= i < s.len() && s[i].path@ == p) implies #[trigger] entry_map(s).contains_key(p) by {
            let i = choose|i: int| 0 <= i < s.len() && s[i].path@ == p;
            if i < n {
                assert(t[i] == s[i]);
                assert(entry_map(t).contains_key(p));
            }
        }
    }
}

/// For distinct paths, the map holds each entry under its own path.
proof fn lemma_entry_map_distinct(s: Seq<ManifestEntryV2>)
    requires
        distinct_paths(s),
    ensures
        entry_map(s).len() == s.len(),
        forall|i: int| 0 <= i < s.len() ==> #[trigger] entry_map(s)[s[i].path@] == s[i],
        entry_map(s).dom().finite(),
    decreases s.len(),
{
    lemma_entry_map_finite(s);
    if s.len() > 0 {
        let t = s.drop_last();
        assert(distinct_paths(t)) by {
            assert forall|i: int, j: int| 0 <= i < t.len() && 0 <= j < t.len() && i != j implies t[i].path@ != t[j].path@ by {
                assert(t[i] == s[i] && t[j] == s[j]);
            }
        }
        lemma_entry_map_distinct(t);
        lemma_entry_map_domain(t);
        assert(!entry_map(t).contains_key(s.last().path@)) by {
            if entry_map(t).contains_key(s.last().path@) {
                let i = choose|i: int| 0 <= i < t.len() && t[i].path@ == s.last().path@;
                assert(s[i].path@ == s[s.len() - 1].path@);
            }
        }
        assert forall|i: int| 0 <= i < s.len() implies #[trigger] entry_map(s)[s[i].path@] == s[i] by {
            if i < s.len() - 1 {
                assert(s[i] == t[i]);
                assert(s[i].path@ != s[s.len() - 1].path@);
            }
        }
    }
}

/// Files sent in the order of a plan whose paths are distinct are each found
/// in what is still pending: the first file of the plan is pending under its
/// own path, and taking it leaves exactly the rest of the plan pending.
pub proof fn lemma_plan_order_consumed(plan: Seq<ManifestEntryV2>)
    requires
        distinct_paths(plan),
        plan.len() > 0,
    ensures
        entry_map(plan).contains_key(plan[0].path@),
        entry_map(plan)[plan[0].path@] == plan[0],
        distinct_paths(plan.drop_first()),
        entry_map(plan).remove(plan[0].path@) == entry_map(plan.drop_first()),
{
    lemma_entry_map_distinct(plan);
    lemma_entry_map_domain(plan);
    assert(plan[0].path@ == plan[0].path@);
    lemma_remove_entry(plan, 0);
    assert(plan.remove(0) =~= plan.drop_first());
}

/// When the whole plan has been taken, nothing is pending.
pub proof fn lemma_empty_plan_done()
    ensures
        entry_map(Seq::<ManifestEntryV2>::empty()).is_empty(),
{
    assert(entry_map(Seq::<ManifestEntryV2>::empty()) =~= Map::<Seq<char>, ManifestEntryV2>::empty());
}

proof fn lemma_entry_map_finite(s: Seq<ManifestEntryV2>)
    ensures
        entry_map(s).dom().finite(),
    decreases s.len(),
{
    if s.len() > 0 {
        lemma_entry_map_finite(s.drop_last());
    }
}

/// What reading one frame header decides.
#[derive(Debug, Clone, Copy, PartialEq, Eq, Structural)]
pub enum BundleHeader {
    /// The bundle ends here.
    End,
    /// A path of this many bytes follows.
    Path(u32),
}

/// Reads a bundle stream against the plan it was sent for: every file must be
/// a planned one, none may come twice, and all must have come when the stream
/// ends.
#[derive(Debug)]
pub struct BundleReader {
    remaining: Vec<ManifestEntryV2>,
    files_total: usize,
    files_written: usize,
    max_path_len: u32,
}

impl BundleReader {
    /// The planned files that have not come yet, by path.
    pub closed spec fn pending(&self) -> Map<Seq<char>, ManifestEntryV2> {
        entry_map(self.remaining@)
    }

    pub closed spec fn total(&self) -> nat {
        self.files_total as nat
    }

    pub closed spec fn written(&self) -> nat {
        self.files_written as nat
    }

    pub closed spec fn max_len(&self) -> u32 {
        self.max_path_len
    }

    pub closed spec fn wf(&self) -> bool {
        &&& distinct_paths(self.remaining@)
        &&& self.files_written + self.remaining@.len() <= self.files_total
    }

    /// A reader for the planned `transfer_entries`; paths longer than
    /// `max_path_len` bytes are refused.
    pub fn new(transfer_entries: Vec<ManifestEntryV2>, max_path_len: u32) -> (r: Self)
        ensures
            r.wf(),
            r.pending() == entry_map(transfer_entries@),
            r.total() == transfer_entries@.len(),
            r.written() == 0,
            r.max_len() == max_path_len,
    {
        let total = transfer_entries.len();
        let ghost all = transfer_entries@;
        let mut entries = transfer_entries;
        let mut remaining: Vec<ManifestEntryV2> = Vec::new();
        assert(entry_map(remaining@) =~= Map::<Seq<char>, ManifestEntryV2>::empty());
        assert(entry_map(all) =~= entry_map(entries@).union_prefer_right(entry_map(remaining@)));
        while entries.len() > 0
            invariant
                total == all.len(),
                entries@.len() + remaining@.len() <= total,
                distinct_paths(remaining@),
                entry_map(all) == entry_map(entries@).union_prefer_right(entry_map(remaining@)),
            decreases entries@.len(),
        {
            let ghost before = entries@;
            let e = entries.pop().unwrap();
            assert(before.drop_last() =~= entries@);
            assert(before.last() == e);
            let ghost pm = entry_map(entries@);
            let ghost rm = entry_map(remaining@);
            proof {
                lemma_entry_map_domain(remaining@);
            }
            match find_entry(&remaining, &e.path) {
                Some(k) => {
                    assert(rm.contains_key(e.path@));
                    assert(pm.insert(e.path@, e).union_prefer_right(rm) =~= pm.union_prefer_right(rm));
                },
                None => {
                    let ghost old_rem = remaining@;
                    let ghost p = e.path@;
                    assert(!rm.contains_key(p));
                    remaining.push(e);
                    assert(remaining@.drop_last() =~= old_rem);
                    assert(entry_map(remaining@) == rm.insert(p, remaining@.last()));
                    assert(pm.insert(p, remaining@.last()).union_prefer_right(rm) =~= pm.union_prefer_right(
                        rm.insert(p, remaining@.last()),
                    ));
                    assert(distinct_paths(remaining@)) by {
                        assert forall|a: int, b: int| 0 <= a < remaining@.len() && 0 <= b < remaining@.len() && a != b
                            implies remaining@[a].path@ != remaining@[b].path@ by {
                            if a < old_rem.len() && b < old_rem.len() {
                                assert(remaining@[a] == old_rem[a] && remaining@[b] == old_rem[b]);
                            } else if a < old_rem.len() {
                                assert(remaining@[a] == old_rem[a]);
                            } else {
                                assert(remaining@[b] == old_rem[b]);
                            }
                        }
                    }
                },
            }
        }
        assert(entry_map(entries@) =~= Map::<Seq<char>, ManifestEntryV2>::empty());
        assert(entry_map(all) =~= entry_map(remaining@));
        BundleReader { remaining, files_total: total, files_written: 0, max_path_len }
    }

    /// Decides what follows a frame header that gives `path_len`.
    pub fn on_header(&self, path_len: u32) -> (r: Result<BundleHeader, BundleWriteError>)
        ensures
            path_len == 0 ==> r == Ok::<BundleHeader, BundleWriteError>(BundleHeader::End),
            0 < path_len <= self.max_len() ==> r == Ok::<BundleHeader, BundleWriteError>(
                BundleHeader::Path(path_len),
            ),
            path_len > self.max_len() && path_len > 0 ==> (r matches Err(e) && !e.changed_target()
                && (e.error_of() matches SyncError::InvalidData(m) && m@ == "bundle path too long: "@
                + decimal(path_len as nat) + " bytes"@)),
    {
        if path_len == 0 {
            return Ok(BundleHeader::End);
        }
        if path_len > self.max_path_len {
            let mut m = "bundle path too long: ".to_string();
            let d = decimal_chars(path_len as u64);
            push_chars(&mut m, d.as_slice());
            m.append(" bytes");
            return Err(BundleWriteError::unchanged(SyncError::InvalidData(m)));
        }
        Ok(BundleHeader::Path(path_len))
    }

    /// Takes the planned entry whose path the frame names.
    pub fn on_path(&mut self, path_bytes: Vec<u8>) -> (r: Result<ManifestEntryV2, BundleWriteError>)
        requires
            old(self).wf(),
        ensures
            final(self).wf(),
            final(self).total() == old(self).total(),
            final(self).max_len() == old(self).max_len(),
            r is Ok <==> (valid_utf8(path_bytes@) && valid_sync_path(decode_utf8(path_bytes@))
                && old(self).pending().contains_key(decode_utf8(path_bytes@))),
            r matches Ok(e) ==> {
                let p = decode_utf8(path_bytes@);
                &&& e == old(self).pending()[p]
                &&& final(self).pending() == old(self).pending().remove(p)
                &&& final(self).written() == old(self).written() + 1
            },
            r matches Err(e) ==> !e.changed_target() && final(self).pending() == old(self).pending()
                && final(self).written() == old(self).written() && (!valid_utf8(path_bytes@) ==> (
            e.error_of() matches SyncError::InvalidData(m) && m@ == "bundle path is not UTF-8"@)),
            valid_utf8(path_bytes@) && !valid_sync_path(decode_utf8(path_bytes@)) ==> (r matches Err(e)
                && e.error_of() matches SyncError::InvalidData(m) && exists|pe: SyncPathError|
                pe.describes(decode_utf8(path_bytes@)) && m@ == pe.text()),
            valid_utf8(path_bytes@) && valid_sync_path(decode_utf8(path_bytes@)) && !old(
                self,
            ).pending().contains_key(decode_utf8(path_bytes@)) ==> (r matches Err(e)
                && e.error_of() matches SyncError::NotFound(m) && m@ == "bundle file not in plan: "@
                + decode_utf8(path_bytes@)),
    {
        let text = match String::from_utf8(path_bytes) {
            Ok(t) => t,
            Err(_) => {
                return Err(BundleWriteError::unchanged(
                    SyncError::InvalidData("bundle path is not UTF-8".to_string()),
                ));
            },
        };
        proof {
            vstd::utf8::encode_utf8_decode_utf8(text@);
        }
        let sync_path = match SyncPath::new(text.as_str()) {
            Ok(p) => p,
            Err(e) => {
                return Err(BundleWriteError::unchanged(SyncError::InvalidData(e.message())));
            },
        };
        proof {
            lemma_entry_map_distinct(self.remaining@);
            lemma_entry_map_domain(self.remaining@);
        }
        match find_entry(&self.remaining, &sync_path) {
            Some(k) => {
                let ghost old_rem = self.remaining@;
                let e = self.remaining.remove(k);
                proof {
                    lemma_remove_entry(old_rem, k as int);
                }
                self.files_written = self.files_written + 1;
                Ok(e)
            },
            None => {
                let mut m = "bundle file not in plan: ".to_string();
                m.append(sync_path.as_str());
                Err(BundleWriteError::unchanged(SyncError::NotFound(m)))
            },
        }
    }

    /// The stream ended: every planned file must have come.
    pub fn finish(&self) -> (r: Result<(), BundleWriteError>)
        requires
            self.wf(),
        ensures
            r is Ok <==> self.pending().is_empty(),
            r matches Err(e) ==> !e.changed_target() && (e.error_of() matches SyncError::InvalidData(m)
                && m@ == "bundle ended early: "@ + decimal(self.written()) + "/"@ + decimal(self.total())
                + " files received"@),
    {
        proof {
            lemma_entry_map_distinct(self.remaining@);
            lemma_entry_map_domain(self.remaining@);
        }
        if self.remaining.len() == 0 {
            assert(self.pending() =~= Map::<Seq<char>, ManifestEntryV2>::empty());
            return Ok(());
        }
        assert(self.pending().contains_key(self.remaining@[0].path@));
        let mut m = "bundle ended early: ".to_string();
        let d = decimal_chars(self.files_written as u64);
        push_chars(&mut m, d.as_slice());
        m.append("/");
        let d = decimal_chars(self.files_total as u64);
        push_chars(&mut m, d.as_slice());
        m.append(" files received");
        Err(BundleWriteError::unchanged(SyncError::InvalidData(m)))
    }
}

/// The position of the entry for `path`, if any.
fn find_entry(v: &Vec<ManifestEntryV2>, path: &SyncPath) -> (r: Option<usize>)
    ensures
        r matches Some(k) ==> k < v@.len() && v@[k as int].path@ == path@,
        r is None ==> forall|i: int| 0 <= i < v@.len() ==> v@[i].path@ != path@,
{
    let want = chars_of(path.as_str());
    let mut i: usize = 0;
    while i < v.len()
        invariant
            i <= v@.len(),
            want@ == path@,
            forall|j: int| 0 <= j < i ==> v@[j].path@ != path@,
        decreases v@.len() - i,
    {
        let have = chars_of(v[i].path.as_str());
        if chars_eq(have.as_slice(), want.as_slice()) {
            return Some(i);
        }
        i = i + 1;
    }
    None
}

proof fn lemma_remove_entry(s: Seq<ManifestEntryV2>, k: int)
    requires
        distinct_paths(s),
        0 <= k < s.len(),
    ensures
        distinct_paths(s.remove(k)),
        entry_map(s.remove(k)) == entry_map(s).remove(s[k].path@),
{
    let t = s.remove(k);
    assert(distinct_paths(t)) by {
        assert forall|a: int, b: int| 0 <= a < t.len() && 0 <= b < t.len() && a != b implies t[a].path@ != t[b].path@ by {
            let a2 = if a < k { a } else { a + 1 };
            let b2 = if b < k { b } else { b + 1 };
            assert(t[a] == s[a2] && t[b] == s[b2]);
        }
    }
    lemma_entry_map_distinct(s);
    lemma_entry_map_distinct(t);
    lemma_entry_map_domain(s);
    lemma_entry_map_domain(t);
    let r = entry_map(s).remove(s[k].path@);
    assert forall|p: Seq<char>| #[trigger] entry_map(t).contains_key(p) <==> r.contains_key(p) by {
        if entry_map(t).contains_key(p) {
            let i = choose|i: int| 0 <= i < t.len() && t[i].path@ == p;
            let i2 = if i < k { i } else { i + 1 };
            assert(s[i2].path@ == p);
            assert(i2 != k);
        }
        if r.contains_key(p) {
            let i = choose|i: int| 0 <= i < s.len() && s[i].path@ == p;
            assert(i != k);
            let i2 = if i < k { i } else { i - 1 };
            assert(t[i2].path@ == p);
        }
    }
    assert forall|p: Seq<char>| #[trigger] entry_map(t).contains_key(p) implies entry_map(t)[p] == r[p] by {
        let i = choose|i: int| 0 <= i < t.len() && t[i].path@ == p;
        let i2 = if i < k { i } else { i + 1 };
        assert(t[i] == s[i2]);
        assert(entry_map(t)[t[i].path@] == t[i]);
        assert(entry_map(s)[s[i2].path@] == s[i2]);
    }
    assert(entry_map(t) =~= r);
}

} // verus!
