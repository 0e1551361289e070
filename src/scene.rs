//! A scene arena: it owns the materials and the surfaces, and each surface
//! refers to its material by index, so that a material may be shared by many
//! surfaces and a hit needs only the index of the surface it struck.

use vstd::prelude::*;
use crate::shapes::Intersectables;

verus! {

pub struct Scene<S, M> {
    materials: Vec<M>,
    surfaces: Intersectables<S>,
    material_of: Vec<usize>,
}

impl<S, M> Scene<S, M> {
    /// The materials, by index.
    pub closed spec fn materials(&self) -> Seq<M> {
        self.materials@
    }

    /// The surfaces, in scan order.
    pub closed spec fn surfaces(&self) -> Seq<S> {
        self.surfaces@
    }

    /// For each surface, the index of its material.
    pub closed spec fn material_index(&self) -> Seq<usize> {
        self.material_of@
    }

    /// Every surface has a material index, and each index names a material.
    pub open spec fn wf(&self) -> bool {
        &&& self.material_index().len() == self.surfaces().len()
        &&& forall|i: int|
            0 <= i < self.material_index().len() ==> #[trigger] self.material_index()[i]
                < self.materials().len()
    }

    pub fn new() -> (r: Self)
        ensures
            r.wf(),
            r.materials().len() == 0,
            r.surfaces().len() == 0,
    {
        Scene { materials: Vec::new(), surfaces: Intersectables::new(Vec::new()), material_of: Vec::new() }
    }

    /// Adds a material and returns its index.
    pub fn add_material(&mut self, material: M) -> (id: usize)
        requires
            old(self).wf(),
        ensures
            final(self).wf(),
            id == old(self).materials().len(),
            final(self).materials() == old(self).materials().push(material),
            final(self).surfaces() == old(self).surfaces(),
            final(self).material_index() == old(self).material_index(),
    {
        let id = self.materials.len();
        self.materials.push(material);
        id
    }

    /// Appends a surface made of material `material` and returns its index;
    /// returns `None`, and leaves the scene as it was, when no material has
    /// that index.
    pub fn add_surface(&mut self, surface: S, material: usize) -> (r: Option<usize>)
        requires
            old(self).wf(),
        ensures
            final(self).wf(),
            final(self).materials() == old(self).materials(),
            r is None <==> material >= old(self).materials().len(),
            r is None ==> final(self).surfaces() == old(self).surfaces()
                && final(self).material_index() == old(self).material_index(),
            r matches Some(id) ==> {
                &&& id == old(self).surfaces().len()
                &&& final(self).surfaces() == old(self).surfaces().push(surface)
                &&& final(self).material_index() == old(self).material_index().push(material)
            },
    {
        if material >= self.materials.len() {
            return None;
        }
        let id = self.surfaces.len();
        self.surfaces.push(surface);
        self.material_of.push(material);
        assert forall|i: int| 0 <= i < self.material_index().len() implies #[trigger] self.material_index()[i]
            < self.materials().len() by {
            if i < old(self).material_index().len() {
                assert(self.material_index()[i] == old(self).material_index()[i]);
            }
        }
        Some(id)
    }

    /// The surfaces, for the nearest-hit scan.
    pub fn world(&self) -> (r: &Intersectables<S>)
        ensures
            r@ == self.surfaces(),
    {
        &self.surfaces
    }

    /// The material of surface `surface`.
    pub fn material(&self, surface: usize) -> (r: &M)
        requires
            self.wf(),
            surface < self.surfaces().len(),
        ensures
            *r == self.materials()[self.material_index()[surface as int] as int],
    {
        let id = self.material_of[surface];
        &self.materials[id]
    }
}

} // verus!
