//! An in-memory store of vocabulary items, keyed by id.
use crate::error::PipelineError;
use crate::vocabulary::VocabularyItem;
use vstd::prelude::*;

verus! {

/// The stored form of a difficulty level.
pub open spec fn difficulty_key(d: crate::vocabulary::DifficultyLevel) -> Seq<char> {
    match d {
        crate::vocabulary::DifficultyLevel::Beginner => "beginner"@,
        crate::vocabulary::DifficultyLevel::Elementary => "elementary"@,
        crate::vocabulary::DifficultyLevel::Intermediate => "intermediate"@,
        crate::vocabulary::DifficultyLevel::Advanced => "advanced"@,
        crate::vocabulary::DifficultyLevel::Native => "native"@,
    }
}

fn same_text(a: &str, b: &str) -> (r: bool)
    ensures
        r == (a@ == b@),
{
    String::from_str(a) == String::from_str(b)
}

impl crate::vocabulary::DifficultyLevel {
    /// The stored form of the level.
    pub fn as_key(&self) -> (r: &'static str)
        ensures
            r@ == difficulty_key(*self),
    {
        match self {
            crate::vocabulary::DifficultyLevel::Beginner => "beginner",
            crate::vocabulary::DifficultyLevel::Elementary => "elementary",
            crate::vocabulary::DifficultyLevel::Intermediate => "intermediate",
            crate::vocabulary::DifficultyLevel::Advanced => "advanced",
            crate::vocabulary::DifficultyLevel::Native => "native",
        }
    }

    /// The level stored under a key; any other key is a validation error.
    pub fn from_key(s: &str) -> (r: Result<Self, PipelineError>)
        ensures
            match r {
                Ok(v) => difficulty_key(v) == s@,
                Err(e) => e is Validation && forall|v: crate::vocabulary::DifficultyLevel|
                    difficulty_key(v) != s@,
            },
    {
        if same_text(s, "beginner") {
            Ok(crate::vocabulary::DifficultyLevel::Beginner)
        } else if same_text(s, "elementary") {
            Ok(crate::vocabulary::DifficultyLevel::Elementary)
        } else if same_text(s, "intermediate") {
            Ok(crate::vocabulary::DifficultyLevel::Intermediate)
        } else if same_text(s, "advanced") {
            Ok(crate::vocabulary::DifficultyLevel::Advanced)
        } else if same_text(s, "native") {
            Ok(crate::vocabulary::DifficultyLevel::Native)
        } else {
            Err(PipelineError::Validation(crate::text::concat2("Invalid difficulty level: ", s)))
        }
    }
}

/// Vocabulary items with distinct ids, in order of creation; `next_id` is
/// above every id given out.
pub struct VocabularyRepository {
    pub items: Vec<VocabularyItem>,
    pub next_id: i64,
}

/// Whether the stored item at `i` has id `id`.
pub open spec fn has_id(items: Seq<VocabularyItem>, i: int, id: i64) -> bool {
    items[i].id == Some(id)
}

impl VocabularyRepository {
    /// Every item has an id below `next_id`, ids ascend in storage order.
    pub open spec fn wf(&self) -> bool {
        &&& 1 <= self.next_id
        &&& forall|i: int|
            0 <= i < self.items@.len() ==> (#[trigger] self.items@[i]).id is Some
                && self.items@[i].id.unwrap() < self.next_id
        &&& forall|i: int, j: int|
            0 <= i < j < self.items@.len() ==> (#[trigger] self.items@[i]).id.unwrap()
                < (#[trigger] self.items@[j]).id.unwrap()
    }

    /// An empty store.
    pub fn new() -> (r: Self)
        ensures
            r.wf(),
            r.items@.len() == 0,
    {
        VocabularyRepository { items: Vec::new(), next_id: 1 }
    }

    /// Stores a copy of `item` under a fresh id and returns the id. Fails
    /// with a database error, changing nothing, once ids run out.
    pub fn create(&mut self, item: &VocabularyItem) -> (r: Result<i64, PipelineError>)
        requires
            old(self).wf(),
        ensures
            final(self).wf(),
            match r {
                Ok(id) => {
                    &&& id == old(self).next_id
                    &&& final(self).items@.len() == old(self).items@.len() + 1
                    &&& final(self).items@.drop_last() == old(self).items@
                    &&& final(self).items@.last().same_as(VocabularyItem { id: Some(id), ..*item })
                },
                Err(e) => {
                    &&& e is Database
                    &&& old(self).next_id == i64::MAX
                    &&& final(self).items@ == old(self).items@
                },
            },
    {
        if self.next_id == i64::MAX {
            return Err(PipelineError::Database(String::from_str("no ids left")));
        }
        let id = self.next_id;
        let mut copy = item.duplicate();
        copy.id = Some(id);
        let ghost before = self.items@;
        self.items.push(copy);
        self.next_id = id + 1;
        assert(self.items@.drop_last() =~= before);
        proof {
            assert forall|i: int, j: int| 0 <= i < j < self.items@.len() implies (
            #[trigger] self.items@[i]).id.unwrap() < (#[trigger] self.items@[j]).id.unwrap() by {
                if j < before.len() {
                    assert(self.items@[i] == before[i] && self.items@[j] == before[j]);
                } else {
                    assert(self.items@[i] == before[i]);
                }
            }
        }
        Ok(id)
    }

    fn position_of(&self, id: i64) -> (r: Option<usize>)
        requires
            self.wf(),
        ensures
            match r {
                Some(i) => i < self.items@.len() && has_id(self.items@, i as int, id),
                None => forall|i: int| 0 <= i < self.items@.len() ==> !has_id(self.items@, i, id),
            },
    {
        let mut i: usize = 0;
        while i < self.items.len()
            invariant
                i <= self.items@.len(),
                forall|k: int| 0 <= k < i ==> !has_id(self.items@, k, id),
            decreases self.items.len() - i,
        {
            if self.items[i].id == Some(id) {
                return Some(i);
            }
            i += 1;
        }
        None
    }

    /// The item with id `id`, if any.
    pub fn get_by_id(&self, id: i64) -> (r: Option<VocabularyItem>)
        requires
            self.wf(),
        ensures
            match r {
                Some(x) => exists|i: int|
                    0 <= i < self.items@.len() && has_id(self.items@, i, id) && x.same_as(
                        #[trigger] self.items@[i],
                    ),
                None => forall|i: int| 0 <= i < self.items@.len() ==> !has_id(self.items@, i, id),
            },
    {
        match self.position_of(id) {
            Some(i) => Some(self.items[i].duplicate()),
            None => None,
        }
    }

    /// The first stored item with this term, meaning and category, if any.
    pub fn find_by_content(&self, korean: &str, english: &str, category: &str) -> (r: Option<
        VocabularyItem,
    >)
        ensures
            match r {
                Some(x) => exists|i: int|
                    0 <= i < self.items@.len() && x.same_as(#[trigger] self.items@[i]) && x.korean@
                        == korean@ && x.english@ == english@ && x.category@ == category@,
                None => forall|i: int|
                    0 <= i < self.items@.len() ==> !((#[trigger] self.items@[i]).korean@ == korean@
                        && self.items@[i].english@ == english@ && self.items@[i].category@
                        == category@),
            },
    {
        let mut i: usize = 0;
        while i < self.items.len()
            invariant
                i <= self.items@.len(),
                forall|k: int|
                    0 <= k < i ==> !((#[trigger] self.items@[k]).korean@ == korean@
                        && self.items@[k].english@ == english@ && self.items@[k].category@
                        == category@),
            decreases self.items.len() - i,
        {
            let it = &self.items[i];
            if same_text(it.korean.as_str(), korean) && same_text(it.english.as_str(), english)
                && same_text(it.category.as_str(), category) {
                return Some(it.duplicate());
            }
            i += 1;
        }
        None
    }

    /// The items of a category, newest first.
    pub fn list_by_category(&self, category: &str) -> (r: Vec<VocabularyItem>)
        ensures
            forall|k: int|
                0 <= k < r@.len() ==> exists|i: int|
                    0 <= i < self.items@.len() && (#[trigger] r@[k]).same_as(
                        #[trigger] self.items@[i],
                    ) && self.items@[i].category@ == category@,
            r@.len() == count_in_category(self.items@, category@),
    {
        let mut r: Vec<VocabularyItem> = Vec::new();
        let mut i: usize = self.items.len();
        assert(self.items@.take(i as int) =~= self.items@);
        while i > 0
            invariant
                i <= self.items@.len(),
                r@.len() + count_in_category(self.items@.take(i as int), category@)
                    == count_in_category(self.items@, category@),
                forall|k: int|
                    0 <= k < r@.len() ==> exists|j: int|
                        0 <= j < self.items@.len() && (#[trigger] r@[k]).same_as(
                            #[trigger] self.items@[j],
                        ) && self.items@[j].category@ == category@,
            decreases i,
        {
            proof {
                assert(self.items@.take(i as int).drop_last() =~= self.items@.take(i - 1));
            }
            i -= 1;
            if same_text(self.items[i].category.as_str(), category) {
                let copy = self.items[i].duplicate();
                r.push(copy);
                proof {
                    assert(r@.last().same_as(self.items@[i as int]));
                }
            }
        }
        proof {
            assert(self.items@.take(0) =~= Seq::<VocabularyItem>::empty());
        }
        r
    }

    /// Replaces the stored item with the same id. An item without an id is
    /// a validation error; an id that is not stored changes nothing.
    pub fn update(&mut self, item: &VocabularyItem) -> (r: Result<(), PipelineError>)
        requires
            old(self).wf(),
        ensures
            final(self).wf(),
            final(self).next_id == old(self).next_id,
            final(self).items@.len() == old(self).items@.len(),
            match r {
                Ok(()) => {
                    &&& item.id is Some
                    &&& forall|i: int|
                        0 <= i < old(self).items@.len() ==> if has_id(old(self).items@, i, item.id.unwrap()) {
                            (#[trigger] final(self).items@[i]).same_as(*item)
                        } else {
                            final(self).items@[i] == old(self).items@[i]
                        }
                },
                Err(e) => e is Validation && item.id is None && final(self).items@ == old(self).items@,
            },
    {
        let id = match item.id {
            Some(id) => id,
            None => {
                return Err(PipelineError::Validation(String::from_str("Cannot update vocabulary item without id")));
            },
        };
        match self.position_of(id) {
            Some(i) => {
                let ghost before = self.items@;
                let copy = item.duplicate();
                self.items.set(i, copy);
                proof {
                    assert forall|a: int, b: int| 0 <= a < b < self.items@.len() implies (
                    #[trigger] self.items@[a]).id.unwrap() < (#[trigger] self.items@[b]).id.unwrap() by {
                        assert(before[a].id.unwrap() < before[b].id.unwrap());
                    }
                    assert forall|k: int| 0 <= k < before.len() && k != i implies !has_id(before, k, id) by {
                        if k < i {
                            assert(before[k].id.unwrap() < before[i as int].id.unwrap());
                        } else {
                            assert(before[i as int].id.unwrap() < before[k].id.unwrap());
                        }
                    }
                }
            },
            None => {},
        }
        Ok(())
    }

    /// Removes the item with id `id` and says whether there was one.
    pub fn delete(&mut self, id: i64) -> (r: bool)
        requires
            old(self).wf(),
        ensures
            final(self).wf(),
            final(self).next_id == old(self).next_id,
            r == exists|i: int| 0 <= i < old(self).items@.len() && has_id(old(self).items@, i, id),
            r ==> exists|i: int|
                0 <= i < old(self).items@.len() && has_id(old(self).items@, i, id)
                    && final(self).items@ == old(self).items@.remove(i),
            !r ==> final(self).items@ == old(self).items@,
    {
        match self.position_of(id) {
            Some(i) => {
                let ghost before = self.items@;
                self.items.remove(i);
                proof {
                    assert(has_id(before, i as int, id));
                    assert forall|a: int, b: int| 0 <= a < b < self.items@.len() implies (
                    #[trigger] self.items@[a]).id.unwrap() < (#[trigger] self.items@[b]).id.unwrap() by {
                        let a0 = if a < i { a } else { a + 1 };
                        let b0 = if b < i { b } else { b + 1 };
                        assert(self.items@[a] == before[a0]);
                        assert(self.items@[b] == before[b0]);
                        assert(before[a0].id.unwrap() < before[b0].id.unwrap());
                    }
                    assert forall|k: int| 0 <= k < self.items@.len() implies (
                    #[trigger] self.items@[k]).id is Some && self.items@[k].id.unwrap() < self.next_id by {
                        let k0 = if k < i { k } else { k + 1 };
                        assert(self.items@[k] == before[k0]);
                    }
                }
                true
            },
            None => false,
        }
    }

    /// How many items are stored.
    pub fn count(&self) -> (r: usize)
        ensures
            r == self.items@.len(),
    {
        self.items.len()
    }
}

/// How many of `items` belong to `category`.
pub open spec fn count_in_category(items: Seq<VocabularyItem>, category: Seq<char>) -> nat
    decreases items.len(),
{
    if items.len() == 0 {
        0
    } else {
        count_in_category(items.drop_last(), category) + if items.last().category@ == category {
            1nat
        } else {
            0nat
        }
    }
}

} // verus!
