//! Raw-material categories and the quantity vector indexed by them.

use vstd::prelude::*;

verus! {

/// A category of raw material.
#[derive(Clone, Copy, Debug, PartialEq, Eq, Structural)]
pub enum Resource {
    Iron,
    Copper,
    Stone,
}

impl Resource {
    /// The position of this category in the enumeration order.
    pub open spec fn ordinal(self) -> int {
        match self {
            Resource::Iron => 0,
            Resource::Copper => 1,
            Resource::Stone => 2,
        }
    }

    /// The category that stands at position `i`; `Iron` stands in for
    /// positions outside the enumeration.
    pub open spec fn at(i: int) -> Resource {
        if i == 1 {
            Resource::Copper
        } else if i == 2 {
            Resource::Stone
        } else {
            Resource::Iron
        }
    }

    /// The number of categories.
    pub fn count() -> (n: usize)
        ensures
            n == 3,
            forall|r: Resource| 0 <= #[trigger] r.ordinal() < n,
    {
        3
    }

    /// The position of this category in the enumeration order.
    pub fn index(self) -> (i: usize)
        ensures
            i == self.ordinal(),
            i < 3,
    {
        match self {
            Resource::Iron => 0,
            Resource::Copper => 1,
            Resource::Stone => 2,
        }
    }

    /// The category at position `i`, if there is one.
    pub fn from_index(i: usize) -> (r: Option<Resource>)
        ensures
            r == if i < 3 {
                Some(Resource::at(i as int))
            } else {
                None
            },
    {
        match i {
            0 => Some(Resource::Iron),
            1 => Some(Resource::Copper),
            2 => Some(Resource::Stone),
            _ => None,
        }
    }

    /// The category's name.
    pub open spec fn label(self) -> Seq<char> {
        match self {
            Resource::Iron => "Iron"@,
            Resource::Copper => "Copper"@,
            Resource::Stone => "Stone"@,
        }
    }

    /// The category's name.
    pub fn name(&self) -> (name: &'static str)
        ensures
            name@ == self.label(),
    {
        match self {
            Resource::Iron => "Iron",
            Resource::Copper => "Copper",
            Resource::Stone => "Stone",
        }
    }

    /// The names of all categories, in enumeration order.
    pub fn names() -> (names: Vec<String>)
        ensures
            names@.len() == 3,
            forall|i: int| 0 <= i < 3 ==> (#[trigger] names@[i])@ == Resource::at(i).label(),
    {
        let all = Resource::all();
        let mut names: Vec<String> = Vec::new();
        let mut i: usize = 0;
        while i < 3
            invariant
                i <= 3,
                names@.len() == i,
                forall|k: int| 0 <= k < 3 ==> all@[k] == Resource::at(k),
                forall|k: int| 0 <= k < i ==> (#[trigger] names@[k])@ == Resource::at(k).label(),
            decreases 3 - i,
        {
            names.push(all[i].name().to_owned());
            i += 1;
        }
        names
    }

    /// Every category, in enumeration order.
    pub fn all() -> (list: [Resource; 3])
        ensures
            forall|i: int| 0 <= i < 3 ==> list@[i] == Resource::at(i),
    {
        [Resource::Iron, Resource::Copper, Resource::Stone]
    }
}

/// The counters of a quantity vector as natural numbers: the model that the
/// contracts of this crate speak of.
pub struct Amounts {
    pub iron: nat,
    pub copper: nat,
    pub stone: nat,
}

impl Amounts {
    /// The all-zero vector.
    pub open spec fn zero() -> Amounts {
        Amounts { iron: 0, copper: 0, stone: 0 }
    }

    /// The counter of category `r`.
    pub open spec fn get(self, r: Resource) -> nat {
        match r {
            Resource::Iron => self.iron,
            Resource::Copper => self.copper,
            Resource::Stone => self.stone,
        }
    }

    /// The same vector with the counter of `r` replaced by `n`.
    pub open spec fn set(self, r: Resource, n: nat) -> Amounts {
        match r {
            Resource::Iron => Amounts { iron: n, ..self },
            Resource::Copper => Amounts { copper: n, ..self },
            Resource::Stone => Amounts { stone: n, ..self },
        }
    }

    /// Every counter is at least the counter that `required` asks for.
    pub open spec fn covers(self, required: Amounts) -> bool {
        &&& required.iron <= self.iron
        &&& required.copper <= self.copper
        &&& required.stone <= self.stone
    }

    /// The component-wise difference; meant for vectors that cover `required`.
    pub open spec fn minus(self, required: Amounts) -> Amounts
        recommends
            self.covers(required),
    {
        Amounts {
            iron: (self.iron - required.iron) as nat,
            copper: (self.copper - required.copper) as nat,
            stone: (self.stone - required.stone) as nat,
        }
    }

    /// The component-wise sum.
    pub open spec fn plus(self, gain: Amounts) -> Amounts {
        Amounts {
            iron: self.iron + gain.iron,
            copper: self.copper + gain.copper,
            stone: self.stone + gain.stone,
        }
    }

    /// Every counter can be held in 32 bits.
    pub open spec fn fits(self) -> bool {
        &&& self.iron <= u32::MAX
        &&& self.copper <= u32::MAX
        &&& self.stone <= u32::MAX
    }

    /// The counters in enumeration order.
    pub open spec fn to_seq(self) -> Seq<nat> {
        seq![self.iron, self.copper, self.stone]
    }
}

/// One non-negative counter per resource category.
#[derive(Clone, Copy, Debug, PartialEq, Eq, Structural)]
pub struct ResourceAmount {
    iron: u32,
    copper: u32,
    stone: u32,
}

impl View for ResourceAmount {
    type V = Amounts;

    closed spec fn view(&self) -> Amounts {
        Amounts { iron: self.iron as nat, copper: self.copper as nat, stone: self.stone as nat }
    }
}

impl Default for ResourceAmount {
    fn default() -> (amount: ResourceAmount)
        ensures
            amount@ == Amounts::zero(),
    {
        ResourceAmount::new()
    }
}

impl ResourceAmount {
    /// The counters of a quantity vector fit in 32 bits each.
    pub proof fn lemma_fits(self)
        ensures
            self@.fits(),
    {
    }

    /// Two quantity vectors with the same counters are the same vector.
    pub proof fn lemma_same_counters(self, other: ResourceAmount)
        requires
            self@ == other@,
        ensures
            self == other,
    {
    }

    /// The all-zero vector.
    pub fn new() -> (amount: ResourceAmount)
        ensures
            amount@ == Amounts::zero(),
    {
        ResourceAmount { iron: 0, copper: 0, stone: 0 }
    }

    /// Whether every counter of `self` reaches the counter of `query`.
    pub fn has_available(&self, query: &ResourceAmount) -> (enough: bool)
        ensures
            enough == self@.covers(query@),
    {
        let all = Resource::all();
        let mut i: usize = 0;
        while i < 3
            invariant
                i <= 3,
                forall|k: int| 0 <= k < 3 ==> all@[k] == Resource::at(k),
                forall|k: int| 0 <= k < i ==> query@.get(Resource::at(k)) <= self@.get(Resource::at(k)),
            decreases 3 - i,
        {
            if query.get(all[i]) > self.get(all[i]) {
                return false;
            }
            i += 1;
        }
        proof {
            assert(query@.get(Resource::at(0)) <= self@.get(Resource::at(0)));
            assert(query@.get(Resource::at(1)) <= self@.get(Resource::at(1)));
            assert(query@.get(Resource::at(2)) <= self@.get(Resource::at(2)));
        }
        true
    }

    /// Takes `amount` out of `self` if every counter suffices, and reports
    /// whether it did. A vector that is short in any category is left as it
    /// was.
    pub fn consume(&mut self, amount: &ResourceAmount) -> (done: bool)
        ensures
            done == old(self)@.covers(amount@),
            done ==> final(self)@ == old(self)@.minus(amount@),
            !done ==> *final(self) == *old(self),
    {
        if !self.has_available(amount) {
            return false;
        }
        self.iron -= amount.iron;
        self.copper -= amount.copper;
        self.stone -= amount.stone;
        true
    }

    /// The counter of `res`.
    pub fn get(&self, res: Resource) -> (n: u32)
        ensures
            n == self@.get(res),
    {
        match res {
            Resource::Iron => self.iron,
            Resource::Copper => self.copper,
            Resource::Stone => self.stone,
        }
    }

    /// Hands out the counter of `res` for writing; the other counters stay.
    pub fn get_mut(&mut self, res: Resource) -> (counter: &mut u32)
        ensures
            *counter == old(self)@.get(res),
            final(self)@ == old(self)@.set(res, *final(counter) as nat),
    {
        match res {
            Resource::Iron => &mut self.iron,
            Resource::Copper => &mut self.copper,
            Resource::Stone => &mut self.stone,
        }
    }

    /// The counters in enumeration order.
    pub fn iter(&self) -> (counters: [u32; 3])
        ensures
            counters@.len() == 3,
            forall|i: int| 0 <= i < 3 ==> counters@[i] == self@.to_seq()[i],
    {
        [self.iron, self.copper, self.stone]
    }
}

} // verus!
