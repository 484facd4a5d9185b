use vstd::prelude::*;

use crate::virtual_key::VirtualKey;

verus! {

/// Whether bit `shift` of `word` is set.
pub open spec fn word_bit(word: u64, shift: int) -> bool {
    (word >> (shift as u64)) & 1u64 == 1u64
}

proof fn lemma_split_code(code: u8)
    ensures
        (code >> 6u8) as int == code as int / 64,
        (code & 0x3fu8) as int == code as int % 64,
{
    assert((code >> 6u8) == code / 64 && (code & 0x3fu8) == code % 64) by (bit_vector);
}

proof fn lemma_bit_of_mask(word: u64, s: u64)
    requires
        s < 64,
    ensures
        ((word & (1u64 << s)) != 0u64) == word_bit(word, s as int),
{
    assert(((word & (1u64 << s)) != 0u64) == ((word >> s) & 1u64 == 1u64)) by (bit_vector)
        requires
            s < 64,
    ;
}

proof fn lemma_set_bit(word: u64, s: u64, t: u64)
    requires
        s < 64,
        t < 64,
    ensures
        word_bit(word | (1u64 << s), t as int) == (s == t || word_bit(word, t as int)),
{
    assert((((word | (1u64 << s)) >> t) & 1u64 == 1u64) == (s == t || (word >> t) & 1u64 == 1u64))
        by (bit_vector)
        requires
            s < 64,
            t < 64,
    ;
}

proof fn lemma_clear_bit(word: u64, s: u64, t: u64)
    requires
        s < 64,
        t < 64,
    ensures
        word_bit(word & !(1u64 << s), t as int) == (s != t && word_bit(word, t as int)),
{
    assert((((word & !(1u64 << s)) >> t) & 1u64 == 1u64) == (s != t && (word >> t) & 1u64 == 1u64))
        by (bit_vector)
        requires
            s < 64,
            t < 64,
    ;
}

proof fn lemma_subset_word_bits(a: u64, b: u64, t: u64)
    requires
        a & b == b,
        t < 64,
        word_bit(b, t as int),
    ensures
        word_bit(a, t as int),
{
    assert((b >> t) & 1u64 == 1u64 ==> (a >> t) & 1u64 == 1u64) by (bit_vector)
        requires
            a & b == b,
            t < 64,
    ;
}

proof fn lemma_nonzero_has_bit(d: u64, t: u64) -> (s: u64)
    requires
        t < 64,
        d >> t != 0u64,
    ensures
        t <= s < 64,
        word_bit(d, s as int),
    decreases 64 - t,
{
    if (d >> t) & 1u64 == 1u64 {
        t
    } else {
        if t == 63 {
            assert((d >> t) != 0u64 && t == 63 ==> (d >> t) & 1u64 == 1u64) by (bit_vector);
            t
        } else {
            assert((d >> t) != 0u64 && (d >> t) & 1u64 != 1u64 && t < 63 ==> (d >> ((t + 1) as u64))
                != 0u64) by (bit_vector);
            lemma_nonzero_has_bit(d, (t + 1) as u64)
        }
    }
}

proof fn lemma_not_subset_word(a: u64, b: u64) -> (t: u64)
    requires
        a & b != b,
    ensures
        t < 64,
        word_bit(b, t as int),
        !word_bit(a, t as int),
{
    let d = b & !a;
    assert(a & b != b ==> (b & !a) >> 0u64 != 0u64) by (bit_vector);
    let t = lemma_nonzero_has_bit(d, 0);
    assert(t < 64 && ((b & !a) >> t) & 1u64 == 1u64 ==> (b >> t) & 1u64 == 1u64 && (a >> t) & 1u64
        != 1u64) by (bit_vector);
    t
}

/// A set of virtual keys, one bit per key code.
#[derive(Debug, Clone, Copy, PartialEq, Eq)]
pub struct VirtualKeySet([u64; 4]);

impl VirtualKeySet {
    /// Whether the bit of `code` is set.
    pub closed spec fn has_code(self, code: u8) -> bool {
        word_bit(self.0[code as int / 64], code as int % 64)
    }

    /// Only codes of virtual keys are ever set.
    #[verifier::type_invariant]
    closed spec fn wf(self) -> bool {
        forall|c: u8| #[trigger] self.has_code(c) ==> VirtualKey::spec_try_from_u8(c) is Some
    }

    /// The members with a code below `n`, in ascending order of code.
    closed spec fn keys_below(self, n: nat) -> Seq<VirtualKey>
        decreases n,
    {
        if n == 0 {
            Seq::empty()
        } else {
            let prev = self.keys_below((n - 1) as nat);
            let c = (n - 1) as u8;
            if self.has_code(c) && VirtualKey::spec_try_from_u8(c) is Some {
                prev.push(VirtualKey::spec_try_from_u8(c).unwrap())
            } else {
                prev
            }
        }
    }
}

impl View for VirtualKeySet {
    type V = Set<VirtualKey>;

    closed spec fn view(&self) -> Set<VirtualKey> {
        Set::new(|k: VirtualKey| self.has_code(k.spec_to_u8()))
    }
}

/// The keys of `s` are listed in strictly ascending order of their codes.
pub open spec fn ascending_codes(s: Seq<VirtualKey>) -> bool {
    forall|i: int, j: int| 0 <= i < j < s.len() ==> s[i].spec_to_u8() < s[j].spec_to_u8()
}

/// The keys of a finite set in ascending order of their codes.
pub open spec fn sorted_by_code(s: Set<VirtualKey>) -> Seq<VirtualKey> {
    choose|q: Seq<VirtualKey>| q.to_set() == s && ascending_codes(q)
}

proof fn lemma_ascending_last(q: Seq<VirtualKey>, k: VirtualKey)
    requires
        ascending_codes(q),
        q.len() > 0,
        q.contains(k),
    ensures
        k.spec_to_u8() <= q.last().spec_to_u8(),
{
    let i = choose|i: int| 0 <= i < q.len() && q[i] == k;
    if i < q.len() - 1 {
        assert(q[i].spec_to_u8() < q[q.len() - 1].spec_to_u8());
    }
}

/// Two lists of the same keys in strictly ascending order of code are the same list.
pub proof fn lemma_ascending_unique(a: Seq<VirtualKey>, b: Seq<VirtualKey>)
    requires
        a.to_set() == b.to_set(),
        ascending_codes(a),
        ascending_codes(b),
    ensures
        a == b,
    decreases a.len(),
{
    if a.len() == 0 {
        if b.len() > 0 {
            assert(b.to_set().contains(b[0]));
            assert(!a.to_set().contains(b[0]));
        }
        assert(a =~= b);
    } else {
        assert(a.to_set().contains(a.last()));
        assert(b.contains(a.last()));
        assert(b.len() > 0);
        assert(b.to_set().contains(b.last()));
        assert(a.contains(b.last()));
        lemma_ascending_last(a, b.last());
        lemma_ascending_last(b, a.last());
        let m = a.last();
        assert(m.spec_to_u8() == b.last().spec_to_u8());
        m.lemma_code_roundtrip();
        b.last().lemma_code_roundtrip();
        assert(m == b.last());
        let a1 = a.drop_last();
        let b1 = b.drop_last();
        assert forall|k: VirtualKey| a1.contains(k) implies k != m by {
            let i = choose|i: int| 0 <= i < a1.len() && a1[i] == k;
            assert(a[i].spec_to_u8() < a[a.len() - 1].spec_to_u8());
        }
        assert forall|k: VirtualKey| b1.contains(k) implies k != m by {
            let i = choose|i: int| 0 <= i < b1.len() && b1[i] == k;
            assert(b[i].spec_to_u8() < b[b.len() - 1].spec_to_u8());
        }
        assert forall|k: VirtualKey| a1.to_set().contains(k) <==> b1.to_set().contains(k) by {
            assert(a.contains(k) <==> (a1.contains(k) || k == m)) by {
                if a.contains(k) {
                    let i = choose|i: int| 0 <= i < a.len() && a[i] == k;
                    if i < a.len() - 1 {
                        assert(a1[i] == k);
                    }
                }
                if a1.contains(k) {
                    let i = choose|i: int| 0 <= i < a1.len() && a1[i] == k;
                    assert(a[i] == k);
                }
            }
            assert(b.contains(k) <==> (b1.contains(k) || k == m)) by {
                if b.contains(k) {
                    let i = choose|i: int| 0 <= i < b.len() && b[i] == k;
                    if i < b.len() - 1 {
                        assert(b1[i] == k);
                    }
                }
                if b1.contains(k) {
                    let i = choose|i: int| 0 <= i < b1.len() && b1[i] == k;
                    assert(b[i] == k);
                }
            }
            assert(a.to_set().contains(k) == a.contains(k));
            assert(b.to_set().contains(k) == b.contains(k));
            assert(a.to_set().contains(k) == b.to_set().contains(k));
            assert(a1.to_set().contains(k) == a1.contains(k));
            assert(b1.to_set().contains(k) == b1.contains(k));
            if a1.contains(k) {
                assert(k != m);
            }
            if b1.contains(k) {
                assert(k != m);
            }
        }
        assert(a1.to_set() =~= b1.to_set());
        lemma_ascending_unique(a1, b1);
        assert(a =~= b) by {
            assert(a == a1.push(m));
            assert(b == b1.push(m));
        }
    }
}

impl VirtualKeySet {
    proof fn lemma_keys_below(self, n: nat)
        requires
            n <= 256,
        ensures
            forall|i: int| 0 <= i < self.keys_below(n).len() ==> #[trigger] self.keys_below(n)[i].spec_to_u8() < n,
            ascending_codes(self.keys_below(n)),
            forall|k: VirtualKey| #[trigger] self.keys_below(n).contains(k) <==> (k.spec_to_u8() < n && self.has_code(k.spec_to_u8())),
        decreases n,
    {
        if n > 0 {
            self.lemma_keys_below((n - 1) as nat);
            let c = (n - 1) as u8;
            VirtualKey::lemma_code_unique(c);
            let prev = self.keys_below((n - 1) as nat);
            let cur = self.keys_below(n);
            assert forall|k: VirtualKey| #[trigger] cur.contains(k) <==> (k.spec_to_u8() < n && self.has_code(k.spec_to_u8())) by {
                k.lemma_code_roundtrip();
                if cur.contains(k) {
                    let i = choose|i: int| 0 <= i < cur.len() && cur[i] == k;
                    if i < prev.len() {
                        assert(prev[i] == k);
                        assert(prev.contains(k));
                    }
                }
                if k.spec_to_u8() < n && self.has_code(k.spec_to_u8()) {
                    if k.spec_to_u8() < n - 1 {
                        assert(prev.contains(k));
                        let i = choose|i: int| 0 <= i < prev.len() && prev[i] == k;
                        assert(cur[i] == k);
                    } else {
                        assert(cur[cur.len() - 1] == k);
                    }
                }
            }
        }
    }

    proof fn lemma_members(self)
        ensures
            self.keys_below(256).no_duplicates(),
            ascending_codes(self.keys_below(256)),
            self.keys_below(256).to_set() == self@,
            self.keys_below(256).len() == self@.len(),
    {
        self.lemma_keys_below(256);
        let s = self.keys_below(256);
        assert(s.no_duplicates()) by {
            assert forall|i: int, j: int| 0 <= i < s.len() && 0 <= j < s.len() && i != j implies s[i] != s[j] by {
                if i < j {
                    assert(s[i].spec_to_u8() < s[j].spec_to_u8());
                } else {
                    assert(s[j].spec_to_u8() < s[i].spec_to_u8());
                }
            }
        }
        assert(s.to_set() =~= self@) by {
            assert forall|k: VirtualKey| s.to_set().contains(k) <==> self@.contains(k) by {
                assert(s.contains(k) <==> (k.spec_to_u8() < 256 && self.has_code(k.spec_to_u8())));
            }
        }
        s.unique_seq_to_set();
    }

    fn index(key: VirtualKey) -> (r: (usize, u64))
        ensures
            r.0 == key.spec_to_u8() as int / 64,
            r.0 < 4,
            r.1 == 1u64 << ((key.spec_to_u8() as int % 64) as u64),
    {
        let id = key.to_u8();
        proof {
            lemma_split_code(id);
        }
        let index = (id >> 6u8) as usize;
        let mask = 1u64 << ((id & 0x3fu8) as u64);
        (index, mask)
    }

    /// Creates an empty set.
    pub fn new() -> (r: Self)
        ensures
            r@ == Set::<VirtualKey>::empty(),
    {
        let words = [0u64; 4];
        assert forall|c: u8| !(#[trigger] VirtualKeySet(words).has_code(c)) by {
            let w = words[c as int / 64];
            assert(w == 0u64);
            let s = (c as int % 64) as u64;
            assert((0u64 >> s) & 1u64 == 0u64) by (bit_vector);
        }
        let r = VirtualKeySet(words);
        assert(r@ =~= Set::<VirtualKey>::empty());
        r
    }

    /// Adds `key` to the set.
    pub fn insert(&mut self, key: VirtualKey)
        ensures
            final(self)@ == old(self)@.insert(key),
    {
        proof {
            use_type_invariant(&*self);
        }
        let (index, mask) = Self::index(key);
        let mut words = self.0;
        let updated = words[index] | mask;
        words[index] = updated;
        let ghost old_set = *self;
        let ghost new_set = VirtualKeySet(words);
        proof {
            let kc = key.spec_to_u8();
            assert forall|c: u8| #[trigger] new_set.has_code(c) == (c == kc || old_set.has_code(c)) by {
                lemma_set_bit(old_set.0[index as int], (kc as int % 64) as u64, (c as int % 64) as u64);
            }
            key.lemma_code_roundtrip();
        }
        self.0 = words;
        proof {
            assert(self@ =~= old(self)@.insert(key)) by {
                assert forall|k: VirtualKey| self@.contains(k) == old(self)@.insert(key).contains(k) by {
                    key.lemma_code_roundtrip();
                    k.lemma_code_roundtrip();
                }
            }
        }
    }

    /// Removes `key` from the set.
    pub fn remove(&mut self, key: VirtualKey)
        ensures
            final(self)@ == old(self)@.remove(key),
    {
        proof {
            use_type_invariant(&*self);
        }
        let (index, mask) = Self::index(key);
        let mut words = self.0;
        let updated = words[index] & !mask;
        words[index] = updated;
        let ghost old_set = *self;
        let ghost new_set = VirtualKeySet(words);
        proof {
            let kc = key.spec_to_u8();
            assert forall|c: u8| #[trigger] new_set.has_code(c) == (c != kc && old_set.has_code(c)) by {
                lemma_clear_bit(old_set.0[index as int], (kc as int % 64) as u64, (c as int % 64) as u64);
            }
        }
        self.0 = words;
        proof {
            assert(self@ =~= old(self)@.remove(key)) by {
                assert forall|k: VirtualKey| self@.contains(k) == old(self)@.remove(key).contains(k) by {
                    key.lemma_code_roundtrip();
                    k.lemma_code_roundtrip();
                }
            }
        }
    }

    /// Returns whether `key` is in the set.
    pub fn contains(self, key: VirtualKey) -> (r: bool)
        ensures
            r == self@.contains(key),
    {
        let (index, mask) = Self::index(key);
        proof {
            lemma_bit_of_mask(self.0[index as int], (key.spec_to_u8() as int % 64) as u64);
        }
        self.0[index] & mask != 0
    }
    proof fn lemma_code_position(self, index: usize, i: usize)
        requires
            index < 4,
            i < 64,
        ensures
            ((index * 64 + i) as u8) as int == index * 64 + i,
            self.has_code((index * 64 + i) as u8) == word_bit(self.0[index as int], i as int),
    {
        assert(((index * 64 + i) as u8) as int == index * 64 + i);
        let c = (index * 64 + i) as u8;
        assert(c as int / 64 == index as int);
        assert(c as int % 64 == i as int);
    }

    /// Returns whether every key of `other` is also in this set.
    pub fn is_superset(self, other: VirtualKeySet) -> (r: bool)
        ensures
            r == other@.subset_of(self@),
    {
        let mut index: usize = 0;
        while index < 4
            invariant
                index <= 4,
                forall|j: int| 0 <= j < index ==> self.0[j] & other.0[j] == other.0[j],
            decreases 4 - index,
        {
            if self.0[index] & other.0[index] != other.0[index] {
                proof {
                    use_type_invariant(&other);
                    let t = lemma_not_subset_word(self.0[index as int], other.0[index as int]);
                    self.lemma_code_position(index, t as usize);
                    other.lemma_code_position(index, t as usize);
                    let c = (index * 64 + t) as u8;
                    assert(other.has_code(c));
                    let k = VirtualKey::spec_try_from_u8(c).unwrap();
                    VirtualKey::lemma_code_unique(c);
                    assert(other@.contains(k));
                    assert(!self@.contains(k));
                }
                return false;
            }
            index += 1;
        }
        proof {
            assert forall|k: VirtualKey| other@.contains(k) implies self@.contains(k) by {
                let c = k.spec_to_u8();
                let j = c as int / 64;
                lemma_subset_word_bits(self.0[j], other.0[j], (c as int % 64) as u64);
            }
        }
        true
    }

    /// Returns the keys of the set in ascending order of their codes.
    pub fn iter(self) -> (r: Vec<VirtualKey>)
        ensures
            r@ == sorted_by_code(self@),
            r@.to_set() == self@,
            r@.no_duplicates(),
            ascending_codes(r@),
    {
        let mut r: Vec<VirtualKey> = Vec::new();
        let mut index: usize = 0;
        while index < 4
            invariant
                index <= 4,
                r@ == self.keys_below((index * 64) as nat),
            decreases 4 - index,
        {
            let mut i: usize = 0;
            while i < 64
                invariant
                    i <= 64,
                    index < 4,
                    r@ == self.keys_below((index * 64 + i) as nat),
                decreases 64 - i,
            {
                proof {
                    self.lemma_code_position(index, i);
                    lemma_bit_of_mask(self.0[index as int], i as u64);
                }
                if self.0[index] & (1u64 << (i as u64)) != 0 {
                    let code = (index * 64 + i) as u8;
                    match VirtualKey::try_from_u8(code) {
                        Some(k) => r.push(k),
                        None => {},
                    }
                }
                i += 1;
            }
            index += 1;
        }
        proof {
            self.lemma_members();
            let q = sorted_by_code(self@);
            assert(r@.to_set() == self@ && ascending_codes(r@));
            lemma_ascending_unique(r@, q);
        }
        r
    }

    /// Returns the number of keys in the set.
    pub fn len(self) -> (r: usize)
        ensures
            r == self@.len(),
    {
        let mut count: usize = 0;
        let mut index: usize = 0;
        while index < 4
            invariant
                index <= 4,
                count == self.keys_below((index * 64) as nat).len(),
                count <= index * 64,
            decreases 4 - index,
        {
            let mut i: usize = 0;
            while i < 64
                invariant
                    i <= 64,
                    index < 4,
                    count == self.keys_below((index * 64 + i) as nat).len(),
                    count <= index * 64 + i,
                decreases 64 - i,
            {
                proof {
                    use_type_invariant(&self);
                    self.lemma_code_position(index, i);
                    lemma_bit_of_mask(self.0[index as int], i as u64);
                }
                if self.0[index] & (1u64 << (i as u64)) != 0 {
                    count += 1;
                }
                i += 1;
            }
            index += 1;
        }
        proof {
            self.lemma_members();
        }
        count
    }

    /// Creates the set of the given keys.
    pub fn from_keys(keys: &Vec<VirtualKey>) -> (r: Self)
        ensures
            r@ == keys@.to_set(),
    {
        let mut result = VirtualKeySet::new();
        let mut i: usize = 0;
        while i < keys.len()
            invariant
                i <= keys.len(),
                result@ == keys@.take(i as int).to_set(),
            decreases keys.len() - i,
        {
            result.insert(keys[i]);
            proof {
                assert(keys@.take(i + 1) == keys@.take(i as int).push(keys@[i as int]));
                keys@.take(i as int).lemma_push_to_set_commute(keys@[i as int]);
            }
            i += 1;
        }
        assert(keys@.take(keys.len() as int) == keys@);
        result
    }
}

impl Default for VirtualKeySet {
    /// The empty set.
    fn default() -> (r: Self)
        ensures
            r@ == Set::<VirtualKey>::empty(),
    {
        VirtualKeySet::new()
    }
}

} // verus!
