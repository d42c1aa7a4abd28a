//! Conversion of an ELF executable into a flat binary image.
//!
//! The binary is the contents of the sections that are loaded into memory
//! (those with the `SHF_ALLOC` flag), laid end to end in the order of their
//! offsets in the file; sections at the same offset keep the order of
//! their addresses, and then their order in the file. Empty sections are
//! left out.
use vstd::prelude::*;
use vstd::relations::{sorted_by, total_ordering};

use object::{Object, ObjectSection};

use super::image::{Error, ErrorView, IoErrorKind};

verus! {

/// The `SHF_ALLOC` section header flag: the section is loaded into memory.
pub const SHF_ALLOC: u64 = 0x2;

/// What the conversion needs to know of a section of an object file.
pub struct ElfSection {
    /// ELF section header flags, or `None` for a file that is not ELF.
    pub sh_flags: Option<u64>,
    /// Load address.
    pub address: u64,
    /// Size in memory.
    pub size: u64,
    /// Offset of the section's data in the file, or `None` when the file
    /// gives no range for it.
    pub offset: Option<u64>,
    /// The section's data in the file, or `None` when it cannot be read.
    pub data: Option<Vec<u8>>,
}

/// A section, seen as plain values: flags, address, size, offset, data.
pub type SectionView = (Option<u64>, u64, u64, Option<u64>, Option<Seq<u8>>);

impl View for ElfSection {
    type V = SectionView;

    open spec fn view(&self) -> SectionView {
        (
            self.sh_flags,
            self.address,
            self.size,
            self.offset,
            match self.data {
                Some(d) => Some(d@),
                None => None,
            },
        )
    }
}

/// The sections of a vector, seen as plain values.
pub open spec fn sections_view(v: Seq<ElfSection>) -> Seq<SectionView> {
    v.map_values(|s: ElfSection| s@)
}

/// The sections that the `object` crate finds in the file `data`, in the
/// order of the section table, or `None` when it cannot parse the file.
pub uninterp spec fn elf_section_table(data: Seq<u8>) -> Option<Seq<SectionView>>;

/// Parses `elf_data` with `object::File::parse` and reads, for each section
/// that `Object::sections` yields, the ELF flags (`ObjectSection::flags`),
/// `address`, `size`, the offset of `compressed_file_range` and `data`.
/// The contract states that the result is the section table named
/// [`elf_section_table`] of the data; nothing more is stated of it.
#[verifier::external_body]
fn read_elf_sections(elf_data: &[u8]) -> (r: Option<Vec<ElfSection>>)
    ensures
        elf_section_table(elf_data@) == match r {
            Some(v) => Some(sections_view(v@)),
            None => None::<Seq<SectionView>>,
        },
{
    let file = object::File::parse(elf_data).ok()?;
    let mut sections = Vec::new();
    for s in file.sections() {
        let sh_flags = match s.flags() {
            object::SectionFlags::Elf { sh_flags } => Some(sh_flags),
            _ => None,
        };
        let offset = s.compressed_file_range().ok().map(|range| range.offset);
        let data = s.data().ok().map(|d| d.to_vec());
        sections.push(ElfSection { sh_flags, address: s.address(), size: s.size(), offset, data });
    }
    Some(sections)
}

/// Whether the section is loaded into memory.
pub open spec fn is_loadable(s: SectionView) -> bool {
    match s.0 {
        Some(f) => f & SHF_ALLOC != 0,
        None => false,
    }
}

/// Sort key of a section: its offset, its address, its index in the table.
pub type SectionKey = (u64, u64, usize);

/// Lexicographic order of section keys.
pub open spec fn key_leq(a: SectionKey, b: SectionKey) -> bool {
    a.0 < b.0 || (a.0 == b.0 && (a.1 < b.1 || (a.1 == b.1 && a.2 <= b.2)))
}

/// The order of section keys is total.
pub proof fn lemma_key_order_total()
    ensures
        total_ordering(|a: SectionKey, b: SectionKey| key_leq(a, b)),
{
}

/// Key of section `i`; a section without an offset sorts at offset 0.
pub open spec fn section_key(s: SectionView, i: int) -> SectionKey {
    (
        match s.3 {
            Some(o) => o,
            None => 0,
        },
        s.1,
        i as usize,
    )
}

/// Keys of the loadable sections among the first `n`, in table order.
pub open spec fn loadable_keys(sv: Seq<SectionView>, n: nat) -> Seq<SectionKey>
    decreases n,
{
    if n == 0 {
        Seq::empty()
    } else {
        let prev = loadable_keys(sv, (n - 1) as nat);
        if is_loadable(sv[n - 1]) {
            prev.push(section_key(sv[n - 1], n - 1))
        } else {
            prev
        }
    }
}

/// The loadable sections, in the order in which they are written out.
pub open spec fn load_order(sv: Seq<SectionView>) -> Seq<SectionKey> {
    loadable_keys(sv, sv.len()).sort_by(|a: SectionKey, b: SectionKey| key_leq(a, b))
}

/// Bytes that a section contributes: nothing when it is empty, its data
/// when it can be read, else as many zeros as its size.
pub open spec fn section_bytes(s: SectionView) -> Seq<u8> {
    if s.2 == 0 {
        Seq::empty()
    } else {
        match s.4 {
            Some(d) => d,
            None => Seq::new(s.2 as nat, |i: int| 0u8),
        }
    }
}

/// The bytes of the sections named by `order`, end to end.
pub open spec fn concat_sections(sv: Seq<SectionView>, order: Seq<SectionKey>) -> Seq<u8>
    decreases order.len(),
{
    if order.len() == 0 {
        Seq::empty()
    } else {
        concat_sections(sv, order.drop_last()) + section_bytes(sv[order.last().2 as int])
    }
}

/// The binary image made of the sections `sv`.
pub open spec fn binary_of(sv: Seq<SectionView>) -> Seq<u8> {
    concat_sections(sv, load_order(sv))
}

/// Sorting needs the offset of every loadable section, as soon as there
/// are two of them.
pub open spec fn offsets_known(sv: Seq<SectionView>) -> bool {
    loadable_keys(sv, sv.len()).len() >= 2 ==> forall|i: int|
        0 <= i < sv.len() && is_loadable(#[trigger] sv[i]) ==> sv[i].3 is Some
}

/// The output fits in memory.
pub open spec fn binary_fits(sv: Seq<SectionView>) -> bool {
    forall|k: int| 0 <= k <= load_order(sv).len() ==> #[trigger] concat_sections(sv, load_order(sv).take(k)).len() <= usize::MAX
}

proof fn lemma_loadable_keys_index(sv: Seq<SectionView>, n: nat)
    requires
        n <= sv.len(),
        sv.len() <= usize::MAX,
    ensures
        forall|j: int| 0 <= j < loadable_keys(sv, n).len() ==> {
            let k = #[trigger] loadable_keys(sv, n)[j];
            &&& 0 <= k.2 < n
            &&& is_loadable(sv[k.2 as int])
            &&& k == section_key(sv[k.2 as int], k.2 as int)
        },
    decreases n,
{
    if n > 0 {
        lemma_loadable_keys_index(sv, (n - 1) as nat);
        let prev = loadable_keys(sv, (n - 1) as nat);
        assert forall|j: int| 0 <= j < loadable_keys(sv, n).len() implies {
            let k = #[trigger] loadable_keys(sv, n)[j];
            &&& 0 <= k.2 < n
            &&& is_loadable(sv[k.2 as int])
            &&& k == section_key(sv[k.2 as int], k.2 as int)
        } by {
            if j < prev.len() {
                assert(loadable_keys(sv, n)[j] == prev[j]);
            }
        }
    }
}

/// Keys of the loadable sections, in table order.
fn collect_loadable_keys(sections: &Vec<ElfSection>) -> (r: Vec<SectionKey>)
    ensures
        r@ == loadable_keys(sections_view(sections@), sections@.len()),
{
    let ghost sv = sections_view(sections@);
    let mut keys: Vec<SectionKey> = Vec::new();
    let mut i: usize = 0;
    while i < sections.len()
        invariant
            i <= sections@.len(),
            sv == sections_view(sections@),
            keys@ == loadable_keys(sv, i as nat),
        decreases sections@.len() - i,
    {
        let s = &sections[i];
        assert(sv[i as int] == s@);
        let loadable = match s.sh_flags {
            Some(f) => f & SHF_ALLOC != 0,
            None => false,
        };
        if loadable {
            let offset = match s.offset {
                Some(o) => o,
                None => 0,
            };
            keys.push((offset, s.address, i));
        }
        i = i + 1;
    }
    keys
}

/// Sorts section keys by [`key_leq`], by insertion.
fn sort_keys(keys: Vec<SectionKey>) -> (r: Vec<SectionKey>)
    ensures
        r@ == keys@.sort_by(|a: SectionKey, b: SectionKey| key_leq(a, b)),
{
    let ghost leq = |a: SectionKey, b: SectionKey| key_leq(a, b);
    let mut sorted: Vec<SectionKey> = Vec::new();
    let mut i: usize = 0;
    proof {
        assert(keys@.take(0) =~= Seq::<SectionKey>::empty());
    }
    while i < keys.len()
        invariant
            i <= keys@.len(),
            leq == (|a: SectionKey, b: SectionKey| key_leq(a, b)),
            sorted_by(sorted@, leq),
            sorted@.to_multiset() == keys@.take(i as int).to_multiset(),
        decreases keys@.len() - i,
    {
        let k = keys[i];
        let mut p: usize = 0;
        while p < sorted.len() && key_le(sorted[p], k)
            invariant
                p <= sorted@.len(),
                forall|j: int| 0 <= j < p ==> key_leq(#[trigger] sorted@[j], k),
            decreases sorted@.len() - p,
        {
            p = p + 1;
        }
        let ghost old_sorted = sorted@;
        sorted.insert(p, k);
        proof {
            assert forall|j: int| p <= j < old_sorted.len() implies key_leq(k, #[trigger] old_sorted[j]) by {
                assert(leq(old_sorted[p as int], old_sorted[j]));
            }
            assert forall|a: int, b: int| 0 <= a < b < sorted@.len() implies #[trigger] leq(sorted@[a], sorted@[b]) by {
                if b < p {
                    assert(leq(old_sorted[a], old_sorted[b]));
                } else if b == p {
                } else if a < p {
                    assert(key_leq(old_sorted[a], k));
                    assert(key_leq(k, old_sorted[b - 1]));
                } else if a == p {
                } else {
                    assert(leq(old_sorted[a - 1], old_sorted[b - 1]));
                }
            }
            vstd::seq_lib::to_multiset_insert(old_sorted, p as int, k);
            assert(keys@.take(i + 1) =~= keys@.take(i as int).push(k));
            vstd::seq_lib::to_multiset_build(keys@.take(i as int), k);
        }
        i = i + 1;
    }
    proof {
        assert(keys@.take(keys@.len() as int) =~= keys@);
        lemma_key_order_total();
        keys@.lemma_sort_by_ensures(leq);
        vstd::seq_lib::lemma_sorted_unique(sorted@, keys@.sort_by(leq), leq);
    }
    sorted
}

/// Writes the loadable sections end to end, in the order of their offsets
/// (then addresses, then places in the table), leaving out empty ones.
pub fn sections_to_bin(sections: &Vec<ElfSection>) -> (r: Vec<u8>)
    requires
        offsets_known(sections_view(sections@)),
    ensures
        r@ == binary_of(sections_view(sections@)),
{
    let ghost sv = sections_view(sections@);
    let keys = collect_loadable_keys(sections);
    let order = sort_keys(keys);
    let n: usize = sections.len();
    proof {
        assert(sv.len() == n);
        lemma_loadable_keys_index(sv, sv.len());
        lemma_key_order_total();
        keys@.lemma_sort_by_ensures(|a: SectionKey, b: SectionKey| key_leq(a, b));
        assert forall|j: int| 0 <= j < order@.len() implies #[trigger] order@[j].2 < sections@.len() by {
            assert(order@.contains(order@[j]));
        }
    }
    let mut out: Vec<u8> = Vec::new();
    let mut j: usize = 0;
    while j < order.len()
        invariant
            j <= order@.len(),
            sv == sections_view(sections@),
            order@ == load_order(sv),
            forall|t: int| 0 <= t < order@.len() ==> #[trigger] order@[t].2 < sections@.len(),
            out@ == concat_sections(sv, order@.take(j as int)),
        decreases order@.len() - j,
    {
        let idx: usize = order[j].2;
        let s = &sections[idx];
        assert(sv[idx as int] == s@);
        let ghost before = out@;
        if s.size != 0 {
            match &s.data {
                Some(d) => {
                    out.extend_from_slice(d.as_slice());
                    assert(out@ =~= before + d@);
                },
                None => {
                    let mut z: u64 = 0;
                    while z < s.size
                        invariant
                            z <= s.size,
                            out@ =~= before + Seq::new(z as nat, |i: int| 0u8),
                        decreases s.size - z,
                    {
                        out.push(0);
                        z = z + 1;
                    }
                },
            }
        }
        proof {
            assert(order@.take(j + 1).drop_last() =~= order@.take(j as int));
            assert(order@.take(j + 1).last() == order@[j as int]);
        }
        j = j + 1;
    }
    assert(order@.take(order@.len() as int) =~= order@);
    out
}

/// Whether every loadable section has an offset, or there are fewer than
/// two loadable sections.
pub fn offsets_are_known(sections: &Vec<ElfSection>) -> (r: bool)
    ensures
        r == offsets_known(sections_view(sections@)),
{
    let ghost sv = sections_view(sections@);
    let keys = collect_loadable_keys(sections);
    if keys.len() < 2 {
        return true;
    }
    let mut i: usize = 0;
    while i < sections.len()
        invariant
            i <= sections@.len(),
            sv == sections_view(sections@),
            forall|t: int| 0 <= t < i && is_loadable(#[trigger] sv[t]) ==> sv[t].3 is Some,
            loadable_keys(sv, sv.len()).len() >= 2,
        decreases sections@.len() - i,
    {
        let s = &sections[i];
        assert(sv[i as int] == s@);
        let loadable = match s.sh_flags {
            Some(f) => f & SHF_ALLOC != 0,
            None => false,
        };
        if loadable && s.offset.is_none() {
            assert(is_loadable(sv[i as int]) && !(sv[i as int].3 is Some));
            return false;
        }
        i = i + 1;
    }
    true
}

/// Main logic for converting ELF to binary: the loadable sections of the
/// file, end to end (see [`sections_to_bin`]), or an error when the file
/// does not parse.
pub fn elf_to_bin_bytes(elf_data: &[u8]) -> (r: Result<Vec<u8>, Error>)
    requires
        match elf_section_table(elf_data@) {
            Some(sv) => offsets_known(sv),
            None => true,
        },
    ensures
        match elf_section_table(elf_data@) {
            None => r matches Err(e) && e@ == ErrorView::Io(IoErrorKind::Other),
            Some(sv) => r matches Ok(bin) && bin@ == binary_of(sv),
        },
{
    match read_elf_sections(elf_data) {
        None => Err(Error::Io(IoErrorKind::Other)),
        Some(sections) => Ok(sections_to_bin(&sections)),
    }
}

/// Converts like [`elf_to_bin_bytes`] when every loadable section has an
/// offset to sort by; returns `None` when one has none (and there are two
/// or more), where the conversion cannot sort them.
pub fn try_elf_to_bin_bytes(elf_data: &[u8]) -> (r: Option<Result<Vec<u8>, Error>>)
    ensures
        match elf_section_table(elf_data@) {
            None => r matches Some(Err(e)) && e@ == ErrorView::Io(IoErrorKind::Other),
            Some(sv) => if offsets_known(sv) {
                r matches Some(Ok(bin)) && bin@ == binary_of(sv)
            } else {
                r is None
            },
        },
{
    match read_elf_sections(elf_data) {
        None => Some(Err(Error::Io(IoErrorKind::Other))),
        Some(sections) => {
            if offsets_are_known(&sections) {
                Some(elf_to_bin_bytes(elf_data))
            } else {
                None
            }
        },
    }
}

/// Whether `a` comes before `b` or equals it in the order of section keys.
fn key_le(a: SectionKey, b: SectionKey) -> (r: bool)
    ensures
        r == key_leq(a, b),
{
    a.0 < b.0 || (a.0 == b.0 && (a.1 < b.1 || (a.1 == b.1 && a.2 <= b.2)))
}

} // verus!
