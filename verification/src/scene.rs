//! The scene: a root node plus the designated active camera.
//!
//! The active camera is resolved once, when the scene is built, by scanning
//! the tree in depth-first pre-order for the first camera-payload node, and
//! can be overridden explicitly afterwards. Where no camera exists, every
//! camera-dependent operation reports absence; none invents a default.

use crate::math::is_identity;
use crate::object::{first_camera_in_children, first_camera_path, first_camera_token, node_at};
use crate::object::{flatten_spec, lemma_camera_discovery, updated_at};
use crate::object::{DataToken, Object};
use vstd::prelude::*;

verus! {

pub struct Scene {
    pub root: Object,
    /// The path of child indices leading from the root to the active camera
    /// node, where one is designated. `set_camera` only accepts paths that
    /// lead to a camera-payload node; a path can still go stale when the
    /// tree is edited afterwards, and every reader checks it against the
    /// tree before use.
    pub camera: Option<Vec<usize>>,
}

/// Finds the depth-first pre-order first camera-payload node below (and
/// including) `o`, as a path of child indices.
fn find_camera(o: &Object) -> (r: Option<Vec<usize>>)
    ensures
        match r {
            Some(p) => first_camera_path(*o) == Option::Some(p@),
            None => first_camera_path(*o) is None,
        },
    decreases *o,
{
    match o.data {
        DataToken::Camera(_) => {
            return Some(Vec::new());
        }
        _ => {}
    }
    let n = o.children.len();
    for i in 0..n
        invariant
            n == o.children@.len(),
            !(o.data is Camera),
            first_camera_in_children(o.children@, 0) == first_camera_in_children(
                o.children@,
                i as int,
            ),
    {
        match find_camera(&o.children[i]) {
            Some(rest) => {
                let ghost rest_view = rest@;
                let mut path: Vec<usize> = Vec::new();
                path.push(i);
                let mut rest = rest;
                path.append(&mut rest);
                proof {
                    assert(path@ =~= seq![i as usize] + rest_view);
                }
                return Some(path);
            }
            None => {}
        }
    }
    None
}

impl Scene {
    /// The stored path of the active camera node, if one is designated.
    pub open spec fn camera_path(self) -> Option<Seq<usize>> {
        match self.camera {
            Option::Some(p) => Option::Some(p@),
            Option::None => Option::None,
        }
    }

    /// The active camera's token: the payload of the node the stored path
    /// leads to, where that path still leads to a camera-payload node.
    pub open spec fn active_camera_spec(self) -> Option<DataToken> {
        match self.camera_path() {
            Option::Some(p) => match node_at(self.root, p) {
                Option::Some(n) => if n.data is Camera {
                    Option::Some(n.data)
                } else {
                    Option::None
                },
                Option::None => Option::None,
            },
            Option::None => Option::None,
        }
    }

    /// Builds the scene: an empty root node over the given top-level nodes,
    /// with the active camera resolved as the depth-first pre-order first
    /// camera-payload node of the tree, or recorded as absent.
    pub fn new(objs: Vec<Object>) -> (s: Self)
        ensures
            is_identity(s.root.xform),
            s.root.data == DataToken::Empty,
            s.root.children@ == objs@,
            s.camera_path() == first_camera_path(s.root),
    {
        let root = Object::empty().with_children(objs);
        let camera = find_camera(&root);
        Scene { root, camera }
    }

    /// A scene whose designation came from discovery (as `new` leaves it)
    /// resolves its active camera to exactly the first camera token of the
    /// depth-first pre-order flattening, and to absence where the tree holds
    /// no camera.
    pub proof fn lemma_discovered_camera_is_preorder_first(self)
        requires
            self.camera_path() == first_camera_path(self.root),
        ensures
            self.active_camera_spec() == first_camera_token(
                flatten_spec(self.root, Option::None),
            ),
    {
        lemma_camera_discovery(self.root, Option::None);
    }

    /// The designated camera's token, or absence where none is designated,
    /// the stored path no longer leads into the tree, or the node it leads
    /// to no longer carries a camera.
    pub fn active_camera(&self) -> (r: Option<DataToken>)
        ensures
            r == self.active_camera_spec(),
    {
        match &self.camera {
            Some(path) => match self.root.node_at_path(path) {
                Some(n) => {
                    let t = n.get_data();
                    match t {
                        DataToken::Camera(_) => Some(t),
                        _ => None,
                    }
                }
                None => None,
            },
            None => None,
        }
    }

    /// Designates the node at `path` as the active camera. The override is
    /// accepted only where the path leads to a camera-payload node; the tree
    /// itself never changes.
    pub fn set_camera(&mut self, path: Vec<usize>) -> (ok: bool)
        ensures
            final(self).root == old(self).root,
            ok == match node_at(old(self).root, path@) {
                Option::Some(n) => n.data is Camera,
                Option::None => false,
            },
            ok ==> final(self).camera_path() == Option::Some(path@),
            !ok ==> final(self).camera_path() == old(self).camera_path(),
    {
        let valid = match self.root.node_at_path(&path) {
            Some(n) => matches!(n.get_data(), DataToken::Camera(_)),
            None => false,
        };
        if valid {
            self.camera = Some(path);
            true
        } else {
            false
        }
    }

    /// Borrows the active camera's node, where the stored path still leads
    /// to one.
    pub fn get_camera_object(&self) -> (r: Option<&Object>)
        ensures
            match r {
                Some(n) => self.camera_path() is Some && node_at(
                    self.root,
                    self.camera_path()->0,
                ) == Option::Some(*n),
                None => match self.camera_path() {
                    Option::Some(p) => node_at(self.root, p) is None,
                    Option::None => true,
                },
            },
    {
        match &self.camera {
            Some(path) => self.root.node_at_path(path),
            None => None,
        }
    }

    /// The local transform of the active camera node's parent: the node one
    /// step up the stored path, where the path is nonempty and still leads
    /// into the tree.
    pub fn camera_parent_xform(&self) -> (r: Option<glam::Mat4>)
        ensures
            match self.camera_path() {
                Option::Some(p) => {
                    if p.len() > 0 && node_at(self.root, p.drop_last()) is Some {
                        r == Option::Some(node_at(self.root, p.drop_last())->0.xform)
                    } else {
                        r is None
                    }
                },
                Option::None => r is None,
            },
    {
        match &self.camera {
            Some(path) => {
                if path.len() == 0 {
                    proof {
                        assert(!(self.camera_path()->0.len() > 0));
                    }
                    return None;
                }
                let count = path.len() - 1;
                let mut parent_path: Vec<usize> = Vec::new();
                for i in 0..count
                    invariant
                        count == path@.len() - 1,
                        parent_path@ == path@.take(i as int),
                {
                    parent_path.push(path[i]);
                }
                proof {
                    assert(parent_path@ =~= self.camera_path()->0.drop_last());
                }
                match self.root.node_at_path(&parent_path) {
                    Some(n) => Some(n.get_local_xform()),
                    None => None,
                }
            }
            None => None,
        }
    }

    /// Replaces the active camera node's local transform with `m`, leaving
    /// every other node and the designation itself unchanged. Nothing
    /// changes where no camera is designated or the stored path no longer
    /// leads into the tree.
    pub fn set_camera_xform(&mut self, m: glam::Mat4) -> (ok: bool)
        ensures
            final(self).camera == old(self).camera,
            match old(self).camera_path() {
                Option::Some(p) => {
                    &&& ok == (node_at(old(self).root, p) is Some)
                    &&& (ok ==> updated_at(old(self).root, final(self).root, p, m))
                    &&& (!ok ==> final(self).root == old(self).root)
                },
                Option::None => !ok && final(self).root == old(self).root,
            },
    {
        match &self.camera {
            Some(path) => self.root.set_xform_at(path, m),
            None => false,
        }
    }
}

} // verus!
