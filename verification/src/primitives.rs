//! Values that the records of a vault are made of: addresses, symbols, texts and lists.

use vstd::prelude::*;

verus! {

/// A value that can be copied without changing what it stands for.
pub trait Record: View + Sized {
    /// A second value with the same view.
    fn duplicate(&self) -> (copy: Self)
        ensures
            copy@ == self@,
    ;
}

/// A value by which records are found again.
pub trait Key: Copy {
    /// Whether two keys are equal.
    fn same(&self, other: &Self) -> (r: bool)
        ensures
            r == (*self == *other),
    ;
}

/// An account or contract address: its kind and the two halves of its 32-byte payload.
#[derive(Clone, Copy, PartialEq, Eq, Structural, Debug)]
pub struct Address {
    pub contract: bool,
    pub hi: u128,
    pub lo: u128,
}

/// A short name: at most 32 bytes of text, padded with zeros, in two halves.
#[derive(Clone, Copy, PartialEq, Eq, Structural, Debug)]
pub struct Symbol {
    pub hi: u128,
    pub lo: u128,
}

/// The symbol without characters.
pub const EMPTY_SYMBOL_HALF: u128 = 0;

/// First half of the symbol `swap`.
pub const SWAP_HALF: u128 = 0x73776170_00000000_00000000_00000000;

/// First half of the symbol `batch`.
pub const BATCH_HALF: u128 = 0x62617463_68000000_00000000_00000000;

/// First half of the symbol `bridge`.
pub const BRIDGE_HALF: u128 = 0x62726964_67650000_00000000_00000000;

/// First half of the symbol `cross_vault`.
pub const CROSS_VAULT_HALF: u128 = 0x63726f73_735f7661_756c7400_00000000;

impl Symbol {
    /// The symbol whose first half is `hi` and whose second half is empty.
    pub open spec fn spec_short(hi: u128) -> Symbol {
        Symbol { hi, lo: 0 }
    }

    /// The symbol whose first half is `hi` and whose second half is empty.
    #[verifier::when_used_as_spec(spec_short)]
    pub fn short(hi: u128) -> (r: Symbol)
        ensures
            r == Symbol::spec_short(hi),
    {
        Symbol { hi, lo: 0 }
    }

    /// The symbol without characters.
    pub open spec fn spec_empty() -> Symbol {
        Symbol::spec_short(EMPTY_SYMBOL_HALF)
    }

    /// The symbol without characters.
    #[verifier::when_used_as_spec(spec_empty)]
    pub fn empty() -> (r: Symbol)
        ensures
            r == Symbol::spec_empty(),
    {
        Symbol::short(EMPTY_SYMBOL_HALF)
    }

    /// Whether the symbol has no characters.
    pub open spec fn spec_is_empty(self) -> bool {
        self == Symbol::spec_empty()
    }

    /// Whether the symbol has no characters.
    #[verifier::when_used_as_spec(spec_is_empty)]
    pub fn is_empty(self) -> (r: bool)
        ensures
            r == self.spec_is_empty(),
    {
        self == Symbol::empty()
    }
}

impl Key for u32 {
    fn same(&self, other: &Self) -> (r: bool) {
        *self == *other
    }
}

impl Key for u64 {
    fn same(&self, other: &Self) -> (r: bool) {
        *self == *other
    }
}

impl Key for Address {
    fn same(&self, other: &Self) -> (r: bool) {
        *self == *other
    }
}

impl Key for Symbol {
    fn same(&self, other: &Self) -> (r: bool) {
        *self == *other
    }
}

/// A proposal and one of its voters.
#[derive(Clone, Copy, PartialEq, Eq, Structural, Debug)]
pub struct VoteKey {
    pub proposal_id: u64,
    pub voter: Address,
}

/// A user and a token.
#[derive(Clone, Copy, PartialEq, Eq, Structural, Debug)]
pub struct VolumeKey {
    pub user: Address,
    pub token: Address,
}

/// Who holds a delegated permission, from whom, and the permission's code.
#[derive(Clone, Copy, PartialEq, Eq, Structural, Debug)]
pub struct GrantKey {
    pub delegatee: Address,
    pub delegator: Address,
    pub permission: u32,
}

impl Key for VoteKey {
    fn same(&self, other: &Self) -> (r: bool) {
        *self == *other
    }
}

impl Key for VolumeKey {
    fn same(&self, other: &Self) -> (r: bool) {
        *self == *other
    }
}

impl Key for GrantKey {
    fn same(&self, other: &Self) -> (r: bool) {
        *self == *other
    }
}

impl Record for bool {
    fn duplicate(&self) -> (copy: Self) {
        *self
    }
}

impl Record for u64 {
    fn duplicate(&self) -> (copy: Self) {
        *self
    }
}

impl Record for i128 {
    fn duplicate(&self) -> (copy: Self) {
        *self
    }
}

/// A copy of a list.
pub fn copy_list<T: Copy>(list: &Vec<T>) -> (copy: Vec<T>)
    ensures
        copy@ == list@,
{
    let mut copy: Vec<T> = Vec::new();
    let mut i: usize = 0;
    while i < list.len()
        invariant
            i <= list.len(),
            copy@ == list@.take(i as int),
        decreases list.len() - i,
    {
        copy.push(list[i]);
        i += 1;
        assert(copy@ =~= list@.take(i as int));
    }
    assert(list@.take(list@.len() as int) =~= list@);
    copy
}

impl<T: Copy> Record for Vec<T> {
    fn duplicate(&self) -> (copy: Self) {
        copy_list(self)
    }
}

/// A text of any length, as its bytes.
#[derive(Debug)]
pub struct Text {
    pub bytes: Vec<u8>,
}

impl View for Text {
    type V = Seq<u8>;

    open spec fn view(&self) -> Seq<u8> {
        self.bytes@
    }
}

impl Record for Text {
    fn duplicate(&self) -> (copy: Self) {
        Text { bytes: copy_list(&self.bytes) }
    }
}

impl Text {
    /// Number of bytes.
    pub fn len(&self) -> (r: usize)
        ensures
            r == self@.len(),
    {
        self.bytes.len()
    }

    /// Whether two texts hold the same bytes.
    pub fn same(&self, other: &Text) -> (r: bool)
        ensures
            r == (self@ == other@),
    {
        if self.bytes.len() != other.bytes.len() {
            return false;
        }
        let mut i: usize = 0;
        while i < self.bytes.len()
            invariant
                i <= self.bytes.len(),
                self.bytes.len() == other.bytes.len(),
                self@.take(i as int) =~= other@.take(i as int),
            decreases self.bytes.len() - i,
        {
            if self.bytes[i] != other.bytes[i] {
                return false;
            }
            i += 1;
            assert(self@.take(i as int) =~= self@.take(i - 1).push(self@[i - 1]));
            assert(other@.take(i as int) =~= other@.take(i - 1).push(other@[i - 1]));
        }
        assert(self@.take(self@.len() as int) =~= self@);
        assert(other@.take(other@.len() as int) =~= other@);
        true
    }
}

/// A list of texts.
#[derive(Debug)]
pub struct Texts {
    pub items: Vec<Text>,
}

impl View for Texts {
    type V = Seq<Seq<u8>>;

    open spec fn view(&self) -> Seq<Seq<u8>> {
        Seq::new(self.items@.len(), |i: int| self.items@[i]@)
    }
}

impl Record for Texts {
    fn duplicate(&self) -> (copy: Self) {
        let mut copy = Texts::new();
        let mut i: usize = 0;
        while i < self.items.len()
            invariant
                i <= self.items.len(),
                copy@ == self@.take(i as int),
            decreases self.items.len() - i,
        {
            copy.push(self.items[i].duplicate());
            i += 1;
            assert(copy@ =~= self@.take(i as int));
        }
        assert(self@.take(self@.len() as int) =~= self@);
        copy
    }
}

impl Texts {
    /// The list without texts.
    pub fn new() -> (r: Texts)
        ensures
            r@ == Seq::<Seq<u8>>::empty(),
    {
        let r = Texts { items: Vec::new() };
        assert(r@ =~= Seq::<Seq<u8>>::empty());
        r
    }

    /// Number of texts.
    pub fn len(&self) -> (r: usize)
        ensures
            r == self@.len(),
    {
        self.items.len()
    }

    /// Appends a text.
    pub fn push(&mut self, text: Text)
        ensures
            final(self)@ == old(self)@.push(text@),
    {
        self.items.push(text);
        assert(self@ =~= old(self)@.push(text@));
    }

    /// Whether a text is in the list.
    pub fn contains(&self, text: &Text) -> (r: bool)
        ensures
            r == self@.contains(text@),
    {
        let mut i: usize = 0;
        while i < self.items.len()
            invariant
                i <= self.items.len(),
                forall|j: int| 0 <= j < i ==> self@[j] != text@,
            decreases self.items.len() - i,
        {
            if self.items[i].same(text) {
                assert(self@[i as int] == text@);
                return true;
            }
            assert(self@[i as int] == self.items@[i as int]@);
            i += 1;
        }
        false
    }

    /// Takes out the text at a position.
    pub fn remove(&mut self, index: usize)
        requires
            index < old(self)@.len(),
        ensures
            final(self)@ == old(self)@.remove(index as int),
    {
        let ghost before = self@;
        let _ = self.items.remove(index);
        assert(self@ =~= before.remove(index as int));
    }
}

/// Whether an item is in a list.
pub fn list_contains<T: Key>(list: &Vec<T>, item: &T) -> (r: bool)
    ensures
        r == list@.contains(*item),
{
    let mut i: usize = 0;
    while i < list.len()
        invariant
            i <= list.len(),
            forall|j: int| 0 <= j < i ==> list@[j] != *item,
        decreases list.len() - i,
    {
        if list[i].same(item) {
            assert(list@[i as int] == *item);
            return true;
        }
        i += 1;
    }
    false
}

/// Position of the first occurrence of an item.
pub open spec fn first_index<T>(list: Seq<T>, item: T) -> Option<int>
    decreases list.len(),
{
    if list.len() == 0 {
        None
    } else if list[0] == item {
        Some(0)
    } else {
        match first_index(list.skip(1), item) {
            Some(i) => Some(i + 1),
            None => None,
        }
    }
}

/// Where the first occurrence of an item is found.
pub proof fn lemma_first_index<T>(list: Seq<T>, item: T)
    ensures
        match first_index(list, item) {
            Some(i) => {
                &&& 0 <= i < list.len()
                &&& list[i] == item
                &&& forall|j: int| 0 <= j < i ==> list[j] != item
            },
            None => !list.contains(item),
        },
    decreases list.len(),
{
    if list.len() > 0 && list[0] != item {
        let rest = list.skip(1);
        lemma_first_index(rest, item);
        match first_index(rest, item) {
            Some(i) => {
                assert forall|j: int| 0 <= j < i + 1 implies list[j] != item by {
                    if j > 0 {
                        assert(rest[j - 1] == list[j]);
                    }
                }
            },
            None => {
                if list.contains(item) {
                    let j = choose|j: int| 0 <= j < list.len() && list[j] == item;
                    assert(rest[j - 1] == item);
                }
            },
        }
    }
}

/// Position of the first occurrence of an item.
pub fn list_position<T: Key>(list: &Vec<T>, item: &T) -> (r: Option<usize>)
    ensures
        match r {
            Some(i) => first_index(list@, *item) == Some(i as int) && i < list@.len(),
            None => first_index(list@, *item) is None,
        },
{
    let mut i: usize = 0;
    while i < list.len()
        invariant
            i <= list.len(),
            forall|j: int| 0 <= j < i ==> list@[j] != *item,
        decreases list.len() - i,
    {
        if list[i].same(item) {
            proof {
                lemma_first_index(list@, *item);
                assert(list@.contains(list@[i as int]));
            }
            return Some(i);
        }
        i += 1;
    }
    proof {
        lemma_first_index(list@, *item);
    }
    None
}

/// The items of a list other than `item`, in their order.
pub open spec fn without<T>(list: Seq<T>, item: T) -> Seq<T>
    decreases list.len(),
{
    if list.len() == 0 {
        Seq::empty()
    } else if list.last() == item {
        without(list.drop_last(), item)
    } else {
        without(list.drop_last(), item).push(list.last())
    }
}

/// What is in a list without an item.
pub proof fn lemma_without_contains<T>(list: Seq<T>, item: T, x: T)
    ensures
        without(list, item).contains(x) <==> list.contains(x) && x != item,
    decreases list.len(),
{
    if list.len() > 0 {
        let init = list.drop_last();
        lemma_without_contains(init, item, x);
        assert(list =~= init.push(list.last()));
        lemma_push_contains(init, list.last(), x);
        lemma_push_contains(without(init, item), list.last(), x);
    }
}

/// What is in a list after an item was appended.
pub proof fn lemma_push_contains<T>(list: Seq<T>, item: T, x: T)
    ensures
        list.push(item).contains(x) <==> list.contains(x) || x == item,
{
    let longer = list.push(item);
    if list.contains(x) {
        let i = choose|i: int| 0 <= i < list.len() && list[i] == x;
        assert(longer[i] == x);
    }
    if x == item {
        assert(longer[list.len() as int] == x);
    }
    if longer.contains(x) && x != item {
        let i = choose|i: int| 0 <= i < longer.len() && longer[i] == x;
        assert(list[i] == x);
    }
}

/// The items of a list other than `item`, in their order.
pub fn list_without<T: Key>(list: &Vec<T>, item: &T) -> (r: Vec<T>)
    ensures
        r@ == without(list@, *item),
{
    let mut r: Vec<T> = Vec::new();
    let mut i: usize = 0;
    while i < list.len()
        invariant
            i <= list.len(),
            r@ == without(list@.take(i as int), *item),
        decreases list.len() - i,
    {
        assert(list@.take(i + 1).drop_last() =~= list@.take(i as int));
        if !list[i].same(item) {
            r.push(list[i]);
        }
        i += 1;
    }
    assert(list@.take(list@.len() as int) =~= list@);
    r
}

} // verus!
