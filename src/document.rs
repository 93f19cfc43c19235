//! A document: a root folder layer and navigation by layer paths.
use vstd::prelude::*;
use crate::{DocumentError, LayerId};
use crate::layers::{Folder, Layer, LayerDataTypes};
use crate::style::PathStyle;
use crate::geometry::identity;

verus! {

/// The first index at which `id` stands in `ids`.
pub open spec fn first_index(ids: Seq<LayerId>, id: LayerId) -> int {
    choose|i: int| 0 <= i < ids.len() && ids[i] == id && forall|j: int| 0 <= j < i ==> ids[j] != id
}

/// The folder that `path` names below `f`: each identifier must name a
/// child of the folder reached so far, and that child must be a folder.
pub open spec fn resolve_in(f: Folder, path: Seq<LayerId>) -> Result<Folder, DocumentError>
    decreases path.len(),
{
    if path.len() == 0 {
        Ok(f)
    } else if !f.layer_ids@.contains(path[0]) || first_index(f.layer_ids@, path[0]) >= f.layers.len() {
        Err(DocumentError::LayerNotFound)
    } else {
        match f.layers[first_index(f.layer_ids@, path[0])].data {
            LayerDataTypes::Folder(g) => resolve_in(g, path.drop_first()),
            _ => Err(DocumentError::NotAFolder),
        }
    }
}

/// The folder that `path` names from the layer `root`, which must be a folder itself.
pub open spec fn resolve(root: Layer, path: Seq<LayerId>) -> Result<Folder, DocumentError> {
    match root.data {
        LayerDataTypes::Folder(f) => resolve_in(f, path),
        _ => Err(DocumentError::NotAFolder),
    }
}

/// `after` is `before` with the folder that `path` names (which must
/// resolve) replaced by `g`, and nothing else changed.
pub open spec fn placed_in(before: Folder, after: Folder, path: Seq<LayerId>, g: Folder) -> bool
    decreases path.len(),
{
    if path.len() == 0 {
        after == g
    } else {
        let i = first_index(before.layer_ids@, path[0]);
        &&& after.layer_ids == before.layer_ids
        &&& after.next_assignment_id == before.next_assignment_id
        &&& after.layers.len() == before.layers.len()
        &&& 0 <= i < before.layers.len()
        &&& forall|j: int| 0 <= j < before.layers.len() && j != i ==> after.layers[j] == before.layers[j]
        &&& before.layers[i].data is Folder
        &&& after.layers[i] == (Layer { data: after.layers[i].data, ..before.layers[i] })
        &&& after.layers[i].data is Folder
        &&& placed_in(before.layers[i].data->Folder_0, after.layers[i].data->Folder_0, path.drop_first(), g)
    }
}

/// `r` is the outcome `s`.
pub open spec fn same_outcome(r: Result<&Folder, DocumentError>, s: Result<Folder, DocumentError>) -> bool {
    match r {
        Ok(f) => s == Ok::<Folder, DocumentError>(*f),
        Err(e) => s == Err::<Folder, DocumentError>(e),
    }
}

/// The first index of `id` is the one before which `id` does not occur.
pub proof fn lemma_first_index(ids: Seq<LayerId>, id: LayerId, i: int)
    requires
        0 <= i < ids.len(),
        ids[i] == id,
        forall|j: int| 0 <= j < i ==> ids[j] != id,
    ensures
        first_index(ids, id) == i,
        ids.contains(id),
{
    let k = first_index(ids, id);
    assert(ids[k] == id && forall|j: int| 0 <= j < k ==> ids[j] != id);
}

impl Folder {
    /// The folder that `path[start..]` names below this one.
    pub fn folder_at(&self, path: &[LayerId], start: usize) -> (r: Result<&Folder, DocumentError>)
        requires
            start <= path@.len(),
        ensures
            same_outcome(r, resolve_in(*self, path@.skip(start as int))),
        decreases path@.len() - start,
    {
        if start == path.len() {
            return Ok(self);
        }
        let id = path[start];
        assert(path@.skip(start as int)[0] == id);
        assert(path@.skip(start as int).drop_first() =~= path@.skip(start + 1));
        match self.position_of_layer(id) {
            None => Err(DocumentError::LayerNotFound),
            Some(i) => {
                proof { lemma_first_index(self.layer_ids@, id, i as int); }
                if i >= self.layers.len() {
                    return Err(DocumentError::LayerNotFound);
                }
                match &self.layers[i].data {
                    LayerDataTypes::Folder(g) => g.folder_at(path, start + 1),
                    _ => Err(DocumentError::NotAFolder),
                }
            },
        }
    }

    /// The folder that `path[start..]` names below this one, to change it.
    pub(crate) fn folder_at_mut(&mut self, path: &[LayerId], start: usize) -> (r: Result<&mut Folder, DocumentError>)
        requires
            start <= path@.len(),
        ensures
            match r {
                Ok(f) => resolve_in(*old(self), path@.skip(start as int)) == Ok::<Folder, DocumentError>(*f),
                Err(e) => resolve_in(*old(self), path@.skip(start as int)) == Err::<Folder, DocumentError>(e),
            },
            r is Ok ==> placed_in(*old(self), *final(self), path@.skip(start as int), *final(r->Ok_0)),
        decreases path@.len() - start,
    {
        if start == path.len() {
            return Ok(self);
        }
        let id = path[start];
        assert(path@.skip(start as int)[0] == id);
        assert(path@.skip(start as int).drop_first() =~= path@.skip(start + 1));
        match self.position_of_layer(id) {
            None => Err(DocumentError::LayerNotFound),
            Some(i) => {
                proof { lemma_first_index(self.layer_ids@, id, i as int); }
                if i >= self.layers.len() {
                    return Err(DocumentError::LayerNotFound);
                }
                let child = &mut self.layers[i];
                match &mut child.data {
                    LayerDataTypes::Folder(g) => g.folder_at_mut(path, start + 1),
                    _ => Err(DocumentError::NotAFolder),
                }
            },
        }
    }
}

/// A tree of layers under one root folder layer.
#[derive(Debug, PartialEq)]
pub struct Document {
    pub root: Layer,
}

impl Document {
    /// A document whose root is an empty folder under the identity transform.
    pub fn new() -> (d: Document)
        ensures
            d.root.data is Folder,
            d.root.data->Folder_0.wf(),
            d.root.data->Folder_0.layers@ == Seq::<Layer>::empty(),
            d.root.data->Folder_0.layer_ids@ == Seq::<LayerId>::empty(),
            d.root.data->Folder_0.next_assignment_id == 0,
            d.root.visible,
            d.root.cache_dirty,
    {
        let root = Layer::new(
            LayerDataTypes::Folder(Folder::new()),
            identity(),
            PathStyle { stroke: None, fill: None },
        );
        Document { root }
    }

    /// The folder at `path`; the empty path names the root.
    pub fn folder(&self, path: &[LayerId]) -> (r: Result<&Folder, DocumentError>)
        ensures
            same_outcome(r, resolve(self.root, path@)),
    {
        assert(path@.skip(0) =~= path@);
        match self.root.as_folder() {
            Ok(f) => f.folder_at(path, 0),
            Err(e) => Err(e),
        }
    }

    /// The folder at `path`, to change it; the empty path names the root.
    /// Fails with `LayerNotFound` where an identifier names no child, and with
    /// `NotAFolder` where it names a child that is not a folder.
    pub fn document_folder_mut(&mut self, path: &[LayerId]) -> (r: Result<&mut Folder, DocumentError>)
        ensures
            match r {
                Ok(f) => resolve(old(self).root, path@) == Ok::<Folder, DocumentError>(*f),
                Err(e) => resolve(old(self).root, path@) == Err::<Folder, DocumentError>(e),
            },
            r is Ok ==> old(self).root.data is Folder && final(self).root == (Layer {
                data: final(self).root.data,
                ..old(self).root
            }) && final(self).root.data is Folder && placed_in(
                old(self).root.data->Folder_0,
                final(self).root.data->Folder_0,
                path@,
                *final(r->Ok_0),
            ),
            r is Err ==> *final(self) == *old(self),
    {
        assert(path@.skip(0) =~= path@);
        if let Err(e) = self.folder(path) {
            return Err(e);
        }
        match &mut self.root.data {
            LayerDataTypes::Folder(f) => f.folder_at_mut(path, 0),
            _ => Err(DocumentError::NotAFolder),
        }
    }
}

} // verus!
