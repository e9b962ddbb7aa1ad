use vstd::prelude::*;

verus! {

/// An append-only list of values that hands out the position of each value
/// as its identifier. A store is created around its first value.
pub struct Store<T> {
    list: Vec<T>,
}

impl<T> View for Store<T> {
    type V = Seq<T>;

    closed spec fn view(&self) -> Seq<T> {
        self.list@
    }
}

impl<T> Store<T> {
    /// A store that holds `obj` alone, under identifier 0.
    pub fn new(obj: T) -> (store: Store<T>)
        ensures
            store@ == seq![obj],
    {
        let mut list = Vec::new();
        list.push(obj);
        assert(list@ =~= seq![obj]);
        Store { list }
    }

    /// Appends `obj` and returns its identifier, the position it was stored at.
    pub fn add(&mut self, obj: T) -> (id: i32)
        ensures
            final(self)@ == old(self)@.push(obj),
            id == old(self)@.len() as i32,
    {
        let position = self.list.len();
        self.list.push(obj);
        #[verifier::truncate]
        (position as i32)
    }

    /// The value stored under `id`, if there is one.
    pub fn get(&self, id: usize) -> (found: Option<&T>)
        ensures
            id < self@.len() ==> found == Some(&self@[id as int]),
            id >= self@.len() ==> found is None,
    {
        if id >= self.list.len() {
            None
        } else {
            Some(&self.list[id])
        }
    }
}

/// The values kept in `programs`, in the order in which they were added.
pub open spec fn kept<T>(programs: Option<Box<Store<T>>>) -> Seq<T> {
    match programs {
        Some(store) => store@,
        None => Seq::empty(),
    }
}

/// Keeps `program` in `programs`, which is made for it if none was kept
/// before, and returns its identifier: the number of programs kept before.
pub fn add_program<T>(programs: &mut Option<Box<Store<T>>>, program: T) -> (id: i32)
    ensures
        *final(programs) is Some,
        kept(*final(programs)) == kept(*old(programs)).push(program),
        id == kept(*old(programs)).len() as i32,
{
    match programs {
        None => {
            *programs = Some(Box::new(Store::new(program)));
            assert(kept::<T>(None).push(program) =~= seq![program]);
            0
        },
        Some(store) => store.add(program),
    }
}

/// The program kept under `id`, if there is one.
pub fn get_program<T>(programs: &Option<Box<Store<T>>>, id: usize) -> (found: Option<&T>)
    ensures
        id < kept(*programs).len() ==> found == Some(&kept(*programs)[id as int]),
        id >= kept(*programs).len() ==> found is None,
{
    match programs {
        None => None,
        Some(store) => store.get(id),
    }
}

} // verus!
