use vstd::prelude::*;

verus! {

/// The scene: an ordered list of objects, appended to while the scene is
/// built and only read while it is rendered.
pub struct HittableList<T> {
    pub objects: Vec<T>,
}

impl<T> HittableList<T> {
    pub open spec fn view(&self) -> Seq<T> {
        self.objects@
    }

    /// An empty scene.
    pub fn new() -> (s: Self)
        ensures
            s.view() == Seq::<T>::empty(),
    {
        HittableList { objects: Vec::new() }
    }

    /// Appends `object` after every object already in the scene.
    pub fn add(&mut self, object: T)
        ensures
            final(self).view() == old(self).view().push(object),
    {
        self.objects.push(object);
    }

    /// Removes every object.
    pub fn clear(&mut self)
        ensures
            final(self).view() == Seq::<T>::empty(),
    {
        self.objects.clear();
    }

    pub fn len(&self) -> (r: usize)
        ensures
            r == self.view().len(),
    {
        self.objects.len()
    }
}

} // verus!
