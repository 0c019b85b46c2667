use vstd::prelude::*;

use crate::class_id::{lemma_swap_keeps_ids_distinct, platform_uid};
use crate::platform::{fid_matches, Platform};
use crate::result::TResult;

verus! {

/// The position in a list of `len` classes that a host means by `index`, or the answer that
/// refuses it.
pub open spec fn class_at(len: nat, index: i32) -> Result<usize, TResult> {
    if 0 <= index < len {
        Ok(index as usize)
    } else {
        Err(TResult::InvalidArgument)
    }
}

/// The bytes of a class ID that a host passes as signed characters.
pub open spec fn tuid_bytes(tuid: Seq<i8>) -> Seq<u8> {
    tuid.map_values(|c: i8| (c as int % 256) as u8)
}

/// Whether position `i` holds the first class with this ID.
pub open spec fn is_first_with_id(class_ids: Seq<Seq<u8>>, id: Seq<u8>, i: int) -> bool {
    &&& 0 <= i < class_ids.len()
    &&& class_ids[i] == id
    &&& forall|j: int| 0 <= j < i ==> class_ids[j] != id
}

/// The classes that a plug-in library exports, by their IDs.
pub struct Factory {
    class_ids: Vec<[u8; 16]>,
}

impl View for Factory {
    type V = Seq<Seq<u8>>;

    closed spec fn view(&self) -> Seq<Seq<u8>> {
        self.class_ids@.map_values(|id: [u8; 16]| id@)
    }
}

impl Factory {
    /// There is at least one class, and hosts can count them.
    pub open spec fn wf(self) -> bool {
        1 <= self@.len() <= i32::MAX
    }

    /// A factory for classes with these IDs.
    pub fn new(class_ids: Vec<[u8; 16]>) -> (factory: Factory)
        requires
            1 <= class_ids@.len() <= i32::MAX,
        ensures
            factory@ == class_ids@.map_values(|id: [u8; 16]| id@),
            factory.wf(),
    {
        Factory { class_ids }
    }

    /// Whether no two classes have the same ID.
    pub fn has_unique_class_ids(&self) -> (unique: bool)
        ensures
            unique == self@.no_duplicates(),
    {
        let mut i: usize = 0;
        while i < self.class_ids.len()
            invariant
                i <= self@.len(),
                self@.len() == self.class_ids@.len(),
                forall|j: int, k: int| 0 <= j < k < self@.len() && j < i ==> self@[j] != self@[k],
            decreases self@.len() - i,
        {
            let mut j: usize = i + 1;
            while j < self.class_ids.len()
                invariant
                    i < j <= self@.len(),
                    self@.len() == self.class_ids@.len(),
                    forall|k: int| i < k < j ==> self@[i as int] != self@[k],
                decreases self@.len() - j,
            {
                if fid_matches(self.class_ids[i].as_slice(), self.class_ids[j].as_slice()) {
                    assert(self@[i as int] == self@[j as int]);
                    return false;
                }
                j += 1;
            }
            i += 1;
        }
        true
    }

    /// The class that describes the factory itself: the first one. There has to be a place to put
    /// the result.
    pub fn get_factory_info(&self, has_output: bool) -> (class: Result<usize, TResult>)
        requires
            self.wf(),
        ensures
            class == (if has_output {
                class_at(self@.len(), 0)
            } else {
                Err(TResult::InvalidArgument)
            }),
            has_output ==> class == Ok::<usize, TResult>(0),
    {
        if has_output {
            Ok(0)
        } else {
            Err(TResult::InvalidArgument)
        }
    }

    /// The number of classes.
    pub fn count_classes(&self) -> (count: i32)
        requires
            self.wf(),
        ensures
            count == self@.len(),
    {
        self.class_ids.len() as i32
    }

    /// The class that a host asks about by its index.
    pub fn get_class_info(&self, index: i32) -> (class: Result<usize, TResult>)
        requires
            self.wf(),
        ensures
            class == class_at(self@.len(), index),
            class is Ok <==> 0 <= index < self@.len(),
            class matches Ok(i) ==> i == index,
            class matches Err(answer) ==> answer == TResult::InvalidArgument,
    {
        if index < 0 || index >= self.class_ids.len() as i32 {
            Err(TResult::InvalidArgument)
        } else {
            Ok(index as usize)
        }
    }

    /// The class to instantiate for a host that asks for the ID `cid`: the first one that has it.
    /// There has to be a place to put the instance.
    pub fn create_instance(&self, cid: Option<[i8; 16]>, has_output: bool) -> (class: Result<
        usize,
        TResult,
    >)
        ensures
            class is Ok <==> has_output && (cid matches Some(tuid) && self@.contains(
                tuid_bytes(tuid@),
            )),
            class matches Ok(i) ==> (cid matches Some(tuid) && is_first_with_id(
                self@,
                tuid_bytes(tuid@),
                i as int,
            )),
            class matches Err(answer) ==> answer == TResult::InvalidArgument,
    {
        if !has_output {
            return Err(TResult::InvalidArgument);
        }
        let id: Vec<u8> = match cid {
            Some(tuid) => unsigned_bytes(&tuid),
            None => return Err(TResult::InvalidArgument),
        };
        let mut i: usize = 0;
        while i < self.class_ids.len()
            invariant
                i <= self@.len(),
                self@.len() == self.class_ids@.len(),
                forall|j: int| 0 <= j < i ==> self@[j] != id@,
                has_output,
                cid matches Some(tuid) && id@ == tuid_bytes(tuid@),
            decreases self@.len() - i,
        {
            if fid_matches(id.as_slice(), self.class_ids[i].as_slice()) {
                assert(self@[i as int] == id@);
                return Ok(i);
            }
            i += 1;
        }
        Err(TResult::InvalidArgument)
    }

    /// The host's context is not needed.
    pub fn set_host_context(&self) -> (answer: TResult)
        ensures
            answer == TResult::ResultOk,
    {
        TResult::ResultOk
    }
}

/// Reads the bytes of a class ID that a host passes as signed characters.
fn unsigned_bytes(tuid: &[i8; 16]) -> (bytes: Vec<u8>)
    ensures
        bytes@ == tuid_bytes(tuid@),
{
    let mut bytes: Vec<u8> = Vec::new();
    let mut i: usize = 0;
    while i < 16
        invariant
            i <= 16,
            bytes@ == tuid_bytes(tuid@.take(i as int)),
        decreases 16 - i,
    {
        let c: i8 = tuid[i];
        assert(c as u8 == (c as i16) % 256) by (bit_vector);
        bytes.push(
            #[verifier::truncate]
            (c as u8),
        );
        i += 1;
    }
    assert(tuid@.take(16) =~= tuid@);
    bytes
}

/// A host that asks for the ID of any class gets that class and no other, as long as IDs are
/// unique.
pub proof fn lemma_every_class_can_be_created(class_ids: Seq<Seq<u8>>, i: int)
    requires
        class_ids.no_duplicates(),
        0 <= i < class_ids.len(),
    ensures
        class_ids.contains(class_ids[i]),
        forall|k: int| is_first_with_id(class_ids, class_ids[i], k) <==> k == i,
{
}

/// Class IDs that are unique stay unique on every platform.
pub proof fn lemma_unique_ids_on_every_platform(class_ids: Seq<Seq<u8>>, platform: Platform)
    requires
        class_ids.no_duplicates(),
        forall|i: int| 0 <= i < class_ids.len() ==> #[trigger] class_ids[i].len() == 16,
    ensures
        class_ids.map_values(|id: Seq<u8>| platform_uid(id, platform)).no_duplicates(),
{
    assert forall|i: int, j: int|
        0 <= i < class_ids.len() && 0 <= j < class_ids.len() && i != j implies platform_uid(
        #[trigger] class_ids[i],
        platform,
    ) != platform_uid(#[trigger] class_ids[j], platform) by {
        lemma_swap_keeps_ids_distinct(class_ids[i], class_ids[j], platform);
    }
}

/// An index stands for the class at that position, for as many classes as there are, and any
/// other is refused.
pub proof fn lemma_class_indices(len: nat, index: i32)
    ensures
        0 <= index < len ==> class_at(len, index) == Ok::<usize, TResult>(index as usize),
        !(0 <= index < len) ==> class_at(len, index) == Err::<usize, TResult>(
            TResult::InvalidArgument,
        ),
{
}

/// The bytes of a class ID keep their places and values; a negative character stands for the byte
/// that is 256 more.
pub proof fn lemma_tuid_bytes(tuid: Seq<i8>, i: int)
    requires
        0 <= i < tuid.len(),
    ensures
        tuid_bytes(tuid).len() == tuid.len(),
        tuid[i] >= 0 ==> tuid_bytes(tuid)[i] == tuid[i],
        tuid[i] < 0 ==> tuid_bytes(tuid)[i] == tuid[i] + 256,
{
}

/// The first class with an ID has it, and no class before it does. There is at most one such
/// class.
pub proof fn lemma_first_class(class_ids: Seq<Seq<u8>>, id: Seq<u8>, i: int)
    ensures
        is_first_with_id(class_ids, id, i) <==> {
            &&& 0 <= i < class_ids.len()
            &&& class_ids[i] == id
            &&& forall|j: int| 0 <= j < i ==> class_ids[j] != id
        },
        forall|k: int|
            is_first_with_id(class_ids, id, i) && is_first_with_id(class_ids, id, k) ==> k == i,
{
    assert forall|k: int|
        is_first_with_id(class_ids, id, i) && is_first_with_id(class_ids, id, k) implies k == i by {
        if k < i {
            assert(class_ids[k] == id);
        } else if i < k {
            assert(class_ids[i] == id);
        }
    }
}

} // verus!
