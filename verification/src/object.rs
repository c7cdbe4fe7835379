//! The transform tree and the resource store.
//!
//! A node owns a local transform, a payload token and the ordered list of
//! its children; the tree is flattened on demand into the depth-first
//! pre-order sequence of payload tokens paired with fully composed world
//! transforms, which feeds camera discovery and the render traversal.

use crate::arena::{Handle, Pool};
use crate::camera::Camera;
use crate::math::{is_identity, mat_mul, rotation_mat, scale_mat, translation_mat};
use crate::math::{mat4_from_quat, mat4_from_scale, mat4_from_translation, mat4_identity, mat4_mul};
use crate::model::Model;
use vstd::prelude::*;

verus! {

/// The payload of a node: nothing, or a stable handle into one of the two
/// resource pools. The variant is the pool tag of the handle.
#[derive(Copy, Clone, PartialEq, Eq, Structural, Debug)]
pub enum DataToken {
    Empty,
    Model(Handle),
    Camera(Handle),
}

impl DataToken {
    /// The handle, where this token tags a camera.
    pub fn try_as_camera(self) -> (r: Option<Handle>)
        ensures
            match r {
                Some(h) => self == DataToken::Camera(h),
                None => !(self is Camera),
            },
    {
        match self {
            DataToken::Camera(h) => Some(h),
            _ => None,
        }
    }

    /// The handle, where this token tags a model.
    pub fn try_as_model(self) -> (r: Option<Handle>)
        ensures
            match r {
                Some(h) => self == DataToken::Model(h),
                None => !(self is Model),
            },
    {
        match self {
            DataToken::Model(h) => Some(h),
            _ => None,
        }
    }
}

/// The owner of every heavyweight resource: one pool of renderable models
/// and one of cameras. Nodes refer to entries only through tokens, so a
/// node can leave the tree without destroying its resource and the pools
/// are the only place resources are destroyed.
pub struct DataStore {
    pub models: Pool<Model>,
    pub cameras: Pool<Camera>,
}

impl DataStore {
    /// The token addresses a live entry of the pool its tag names.
    pub open spec fn token_live(self, t: DataToken) -> bool {
        match t {
            DataToken::Empty => false,
            DataToken::Model(h) => self.models.entries().dom().contains(h),
            DataToken::Camera(h) => self.cameras.entries().dom().contains(h),
        }
    }

    pub fn new() -> (store: Self)
        ensures
            store.models.entries() == Map::<Handle, Model>::empty(),
            store.cameras.entries() == Map::<Handle, Camera>::empty(),
    {
        DataStore { models: Pool::new(), cameras: Pool::new() }
    }

    /// Takes ownership of the model and returns a fresh model-tagged token.
    pub fn add_model(&mut self, model: Model) -> (t: DataToken)
        ensures
            t is Model,
            !old(self).models.entries().dom().contains(t->Model_0),
            !old(self).models.retired(t->Model_0),
            final(self).models.entries() == old(self).models.entries().insert(
                t->Model_0,
                model,
            ),
            final(self).cameras == old(self).cameras,
            forall|g: Handle|
                old(self).models.retired(g) ==> final(self).models.retired(g),
    {
        DataToken::Model(self.models.insert(model))
    }

    /// Takes ownership of the camera and returns a fresh camera-tagged token.
    pub fn add_camera(&mut self, camera: Camera) -> (t: DataToken)
        ensures
            t is Camera,
            !old(self).cameras.entries().dom().contains(t->Camera_0),
            !old(self).cameras.retired(t->Camera_0),
            final(self).cameras.entries() == old(self).cameras.entries().insert(
                t->Camera_0,
                camera,
            ),
            final(self).models == old(self).models,
            forall|g: Handle|
                old(self).cameras.retired(g) ==> final(self).cameras.retired(g),
    {
        DataToken::Camera(self.cameras.insert(camera))
    }

    /// The model the token addresses: exactly the object inserted under this
    /// handle, or nothing where the token is not model-tagged or is stale.
    pub fn get_model(&self, t: DataToken) -> (r: Option<&Model>)
        ensures
            match r {
                Some(m) => t is Model && self.models.entries().dom().contains(t->Model_0)
                    && *m == self.models.entries()[t->Model_0],
                None => !(t is Model && self.models.entries().dom().contains(t->Model_0)),
            },
    {
        match t {
            DataToken::Model(h) => self.models.get(h),
            _ => None,
        }
    }

    /// Destroys the model the token addresses and retires its handle: the
    /// slot index may be recycled, but this token never addresses an entry
    /// again. A stale or wrongly tagged token removes nothing.
    pub fn remove_model(&mut self, t: DataToken) -> (r: Option<Model>)
        ensures
            final(self).cameras == old(self).cameras,
            match r {
                Some(m) => {
                    &&& t is Model
                    &&& old(self).models.entries().dom().contains(t->Model_0)
                    &&& m == old(self).models.entries()[t->Model_0]
                    &&& final(self).models.entries() == old(self).models.entries().remove(
                        t->Model_0,
                    )
                    &&& final(self).models.retired(t->Model_0)
                },
                None => {
                    &&& !(t is Model && old(self).models.entries().dom().contains(t->Model_0))
                    &&& final(self).models == old(self).models
                },
            },
            forall|g: Handle|
                old(self).models.retired(g) ==> final(self).models.retired(g),
    {
        match t {
            DataToken::Model(h) => self.models.remove(h),
            _ => None,
        }
    }

    /// Destroys the camera the token addresses and retires its handle, as
    /// `remove_model` does for models.
    pub fn remove_camera(&mut self, t: DataToken) -> (r: Option<Camera>)
        ensures
            final(self).models == old(self).models,
            match r {
                Some(c) => {
                    &&& t is Camera
                    &&& old(self).cameras.entries().dom().contains(t->Camera_0)
                    &&& c == old(self).cameras.entries()[t->Camera_0]
                    &&& final(self).cameras.entries() == old(self).cameras.entries().remove(
                        t->Camera_0,
                    )
                    &&& final(self).cameras.retired(t->Camera_0)
                },
                None => {
                    &&& !(t is Camera && old(self).cameras.entries().dom().contains(t->Camera_0))
                    &&& final(self).cameras == old(self).cameras
                },
            },
            forall|g: Handle|
                old(self).cameras.retired(g) ==> final(self).cameras.retired(g),
    {
        match t {
            DataToken::Camera(h) => self.cameras.remove(h),
            _ => None,
        }
    }

    /// The camera the token addresses: exactly the object inserted under
    /// this handle, or nothing where the token is not camera-tagged or is
    /// stale.
    pub fn get_camera(&self, t: DataToken) -> (r: Option<&Camera>)
        ensures
            match r {
                Some(c) => t is Camera && self.cameras.entries().dom().contains(t->Camera_0)
                    && *c == self.cameras.entries()[t->Camera_0],
                None => !(t is Camera && self.cameras.entries().dom().contains(t->Camera_0)),
            },
    {
        match t {
            DataToken::Camera(h) => self.cameras.get(h),
            _ => None,
        }
    }
}

/// Anything the store can take ownership of in exchange for a token.
pub trait IntoData {
    fn into_data(self, store: &mut DataStore) -> (t: DataToken)
        ensures
            !old(store).token_live(t),
            final(store).token_live(t),
            forall|g: DataToken|
                old(store).token_live(g) ==> final(store).token_live(g),
    ;
}

impl IntoData for Model {
    fn into_data(self, store: &mut DataStore) -> (t: DataToken) {
        store.add_model(self)
    }
}

impl IntoData for Camera {
    fn into_data(self, store: &mut DataStore) -> (t: DataToken) {
        store.add_camera(self)
    }
}

/// A tree node: a local transform, a payload token, and the ordered list of
/// children it exclusively owns. Insertion order is traversal order.
#[verifier::ext_equal]
pub struct Object {
    pub xform: glam::Mat4,
    pub data: DataToken,
    pub children: Vec<Object>,
}

/// The depth-first pre-order flattening of a node: the node itself paired
/// with its world transform, then each child's subtree in order. The world
/// transform composes the node's local transform onto the parent's world
/// transform; the node the flattening starts from has no ancestors, and its
/// world transform is its local transform itself.
pub open spec fn flatten_spec(o: Object, parent: Option<glam::Mat4>) -> Seq<
    (DataToken, glam::Mat4),
>
    decreases o,
{
    let world = match parent {
        Option::None => o.xform,
        Option::Some(p) => mat_mul(o.xform, p),
    };
    seq![(o.data, world)] + flatten_children(o.children@, world)
}

/// The concatenated flattenings of a sequence of sibling subtrees, each
/// composed onto the same parent world transform.
pub open spec fn flatten_children(cs: Seq<Object>, parent: glam::Mat4) -> Seq<
    (DataToken, glam::Mat4),
>
    decreases cs,
{
    if cs.len() == 0 {
        Seq::empty()
    } else {
        flatten_children(cs.drop_last(), parent) + flatten_spec(cs.last(), Option::Some(parent))
    }
}

impl Object {
    /// A node with no payload, the identity local transform and no children.
    pub fn empty() -> (obj: Self)
        ensures
            is_identity(obj.xform),
            obj.data == DataToken::Empty,
            obj.children@ == Seq::<Object>::empty(),
    {
        Object { xform: mat4_identity(), data: DataToken::Empty, children: Vec::new() }
    }

    /// A node carrying a resource: the store takes ownership of the resource
    /// and the node keeps only the token.
    pub fn new(data: impl IntoData, store: &mut DataStore) -> (obj: Self)
        ensures
            is_identity(obj.xform),
            obj.children@ == Seq::<Object>::empty(),
            !old(store).token_live(obj.data),
            final(store).token_live(obj.data),
            forall|g: DataToken|
                old(store).token_live(g) ==> final(store).token_live(g),
    {
        Object {
            xform: mat4_identity(),
            data: data.into_data(store),
            children: Vec::new(),
        }
    }

    /// Replaces the child list.
    pub fn with_children(self, children: Vec<Object>) -> (obj: Self)
        ensures
            obj.xform == self.xform,
            obj.data == self.data,
            obj.children == children,
    {
        Object { children, ..self }
    }

    pub fn get_local_xform(&self) -> (m: glam::Mat4)
        ensures
            m == self.xform,
    {
        self.xform
    }

    pub fn set_xform(&mut self, xform: glam::Mat4)
        ensures
            final(self).xform == xform,
            final(self).data == old(self).data,
            final(self).children == old(self).children,
    {
        self.xform = xform;
    }

    pub fn get_data(&self) -> (t: DataToken)
        ensures
            t == self.data,
    {
        self.data
    }

    /// Appends a child; ownership of the subtree transfers to this node.
    pub fn add_child(&mut self, obj: Object)
        ensures
            final(self).children@ == old(self).children@.push(obj),
            final(self).xform == old(self).xform,
            final(self).data == old(self).data,
    {
        self.children.push(obj);
    }

    /// Appends a whole list of children, in order.
    pub fn add_children(&mut self, objs: Vec<Object>)
        ensures
            final(self).children@ == old(self).children@ + objs@,
            final(self).xform == old(self).xform,
            final(self).data == old(self).data,
    {
        let mut objs = objs;
        self.children.append(&mut objs);
    }

    pub fn get_child(&self, idx: usize) -> (r: Option<&Object>)
        ensures
            match r {
                Some(c) => idx < self.children@.len() && *c == self.children@[idx as int],
                None => idx >= self.children@.len(),
            },
    {
        if idx < self.children.len() {
            Some(&self.children[idx])
        } else {
            None
        }
    }

    /// Right-multiplies the local transform by a translation.
    pub fn translate(&mut self, translation: glam::Vec3)
        ensures
            final(self).xform == mat_mul(old(self).xform, translation_mat(translation)),
            final(self).data == old(self).data,
            final(self).children == old(self).children,
    {
        self.xform = mat4_mul(self.xform, mat4_from_translation(translation));
    }

    pub fn with_translation(self, translation: glam::Vec3) -> (obj: Self)
        ensures
            obj.xform == mat_mul(self.xform, translation_mat(translation)),
            obj.data == self.data,
            obj.children == self.children,
    {
        let mut obj = self;
        obj.translate(translation);
        obj
    }

    /// Right-multiplies the local transform by a rotation, given as a
    /// quaternion about any axis.
    pub fn rotate(&mut self, rotation: glam::Quat)
        ensures
            final(self).xform == mat_mul(old(self).xform, rotation_mat(rotation)),
            final(self).data == old(self).data,
            final(self).children == old(self).children,
    {
        self.xform = mat4_mul(self.xform, mat4_from_quat(rotation));
    }

    pub fn with_rotation(self, rotation: glam::Quat) -> (obj: Self)
        ensures
            obj.xform == mat_mul(self.xform, rotation_mat(rotation)),
            obj.data == self.data,
            obj.children == self.children,
    {
        let mut obj = self;
        obj.rotate(rotation);
        obj
    }

    /// Right-multiplies the local transform by a per-axis scale.
    pub fn scale(&mut self, scale: glam::Vec3)
        ensures
            final(self).xform == mat_mul(old(self).xform, scale_mat(scale)),
            final(self).data == old(self).data,
            final(self).children == old(self).children,
    {
        self.xform = mat4_mul(self.xform, mat4_from_scale(scale));
    }

    pub fn with_scale(self, scale: glam::Vec3) -> (obj: Self)
        ensures
            obj.xform == mat_mul(self.xform, scale_mat(scale)),
            obj.data == self.data,
            obj.children == self.children,
    {
        let mut obj = self;
        obj.scale(scale);
        obj
    }

    /// Puts the local transform back to the identity, whatever was applied
    /// before.
    pub fn reset(&mut self)
        ensures
            is_identity(final(self).xform),
            final(self).data == old(self).data,
            final(self).children == old(self).children,
    {
        self.xform = mat4_identity();
    }

    /// Flattens the subtree below (and including) this node, depth-first,
    /// appending to `out`.
    fn flatten_into(
        &self,
        parent: Option<glam::Mat4>,
        out: &mut Vec<(DataToken, glam::Mat4)>,
    )
        ensures
            final(out)@ == old(out)@ + flatten_spec(*self, parent),
        decreases *self,
    {
        let world = match parent {
            Option::None => self.xform,
            Option::Some(p) => mat4_mul(self.xform, p),
        };
        out.push((self.data, world));
        let ghost mid = out@;
        let n = self.children.len();
        for i in 0..n
            invariant
                n == self.children@.len(),
                out@ == mid + flatten_children(self.children@.take(i as int), world),
        {
            proof {
                assert(self.children@.take(i + 1).drop_last() =~= self.children@.take(i as int));
                assert(self.children@.take(i + 1).last() == self.children@[i as int]);
            }
            self.children[i].flatten_into(Some(world), out);
        }
        proof {
            assert(self.children@.take(n as int) =~= self.children@);
            assert(out@ =~= old(out)@ + flatten_spec(*self, parent));
        }
    }

    /// The depth-first pre-order sequence of every node in this subtree,
    /// paired with its fully composed world transform. A pure function of
    /// the current tree state: every call walks the tree afresh.
    pub fn get_all(&self) -> (r: Vec<(DataToken, glam::Mat4)>)
        ensures
            r@ == flatten_spec(*self, Option::None),
    {
        let mut out: Vec<(DataToken, glam::Mat4)> = Vec::new();
        self.flatten_into(None, &mut out);
        out
    }

    /// The model entries of the flattening, in traversal order.
    pub fn get_all_models(&self) -> (r: Vec<(DataToken, glam::Mat4)>)
        ensures
            r@ == flatten_spec(*self, Option::None).filter(
                |e: (DataToken, glam::Mat4)| e.0 is Model,
            ),
    {
        let all = self.get_all();
        filter_by_tag(all, true)
    }

    /// The camera entries of the flattening, in traversal order.
    pub fn get_all_cameras(&self) -> (r: Vec<(DataToken, glam::Mat4)>)
        ensures
            r@ == flatten_spec(*self, Option::None).filter(
                |e: (DataToken, glam::Mat4)| e.0 is Camera,
            ),
    {
        let all = self.get_all();
        filter_by_tag(all, false)
    }
}

/// The number of nodes of a subtree.
pub open spec fn tree_size(o: Object) -> nat
    decreases o, 0int,
{
    1 + children_size(o.children@)
}

/// The number of nodes of a list of sibling subtrees.
pub open spec fn children_size(cs: Seq<Object>) -> nat
    decreases cs, 1int,
{
    if cs.len() == 0 {
        0
    } else {
        children_size(cs.drop_last()) + tree_size(cs.last())
    }
}

/// The flattening visits every node of the subtree exactly once: its length
/// is the subtree's node count.
pub proof fn lemma_flatten_counts_nodes(o: Object, parent: Option<glam::Mat4>)
    ensures
        flatten_spec(o, parent).len() == tree_size(o),
    decreases o, 0int,
{
    let world = match parent {
        Option::None => o.xform,
        Option::Some(p) => mat_mul(o.xform, p),
    };
    lemma_flatten_children_count(o.children@, world);
}

proof fn lemma_flatten_children_count(cs: Seq<Object>, parent: glam::Mat4)
    ensures
        flatten_children(cs, parent).len() == children_size(cs),
    decreases cs, 1int,
{
    if cs.len() > 0 {
        lemma_flatten_children_count(cs.drop_last(), parent);
        lemma_flatten_counts_nodes(cs.last(), Option::Some(parent));
    }
}

/// The world transform of the node a path leads to: the node's local
/// transform composed onto each ancestor's in turn, root to node, applied
/// to whatever world transform the flattening root itself has.
pub open spec fn path_world(o: Object, path: Seq<usize>, parent: Option<glam::Mat4>) -> glam::Mat4
    decreases path.len(),
{
    let world = match parent {
        Option::None => o.xform,
        Option::Some(p) => mat_mul(o.xform, p),
    };
    if path.len() == 0 {
        world
    } else {
        path_world(o.children@[path[0] as int], path.drop_first(), Option::Some(world))
    }
}

/// The combined node count of the sibling subtrees before index `k`.
pub open spec fn children_size_before(cs: Seq<Object>, k: int) -> nat
    decreases k,
{
    if k <= 0 {
        0
    } else {
        children_size_before(cs, k - 1) + tree_size(cs[k - 1])
    }
}

/// The position of the node at `path` in the depth-first pre-order of the
/// subtree it belongs to: the nodes visited before it are the subtree root
/// and, level by level, the whole subtrees of the earlier siblings.
pub open spec fn preorder_rank(o: Object, path: Seq<usize>) -> int
    decreases path.len(),
{
    if path.len() == 0 {
        0
    } else {
        1 + children_size_before(o.children@, path[0] as int) + preorder_rank(
            o.children@[path[0] as int],
            path.drop_first(),
        )
    }
}

proof fn lemma_children_size_before_take(cs: Seq<Object>, k: int)
    requires
        0 <= k <= cs.len(),
    ensures
        children_size_before(cs, k) == children_size(cs.take(k)),
    decreases k,
{
    if k > 0 {
        lemma_children_size_before_take(cs, k - 1);
        assert(cs.take(k).drop_last() =~= cs.take(k - 1));
        assert(cs.take(k).last() == cs[k - 1]);
    }
}

proof fn lemma_flatten_children_index(cs: Seq<Object>, parent: glam::Mat4, k: int, i: int)
    requires
        0 <= k < cs.len(),
        0 <= i < flatten_spec(cs[k], Option::Some(parent)).len(),
    ensures
        children_size_before(cs, k) + i < flatten_children(cs, parent).len(),
        flatten_children(cs, parent)[children_size_before(cs, k) + i] == flatten_spec(
            cs[k],
            Option::Some(parent),
        )[i],
    decreases cs.len(),
{
    lemma_flatten_children_count(cs, parent);
    if k == cs.len() - 1 {
        lemma_children_size_before_take(cs, k);
        lemma_flatten_children_count(cs.drop_last(), parent);
        assert(cs.take(k) =~= cs.drop_last());
        assert(children_size_before(cs, k) == flatten_children(cs.drop_last(), parent).len());
    } else {
        assert(cs.drop_last()[k] == cs[k]);
        assert(cs.drop_last().take(k) =~= cs.take(k));
        lemma_children_size_before_take(cs, k);
        lemma_children_size_before_take(cs.drop_last(), k);
        lemma_flatten_children_index(cs.drop_last(), parent, k, i);
    }
}

/// Every node of the subtree stands in the flattening exactly at its
/// depth-first pre-order position, paired with the world transform composed
/// along its path: the matrix product of its own local transform with every
/// ancestor's, evaluated root to node.
pub proof fn lemma_flatten_has_every_node(o: Object, path: Seq<usize>, parent: Option<glam::Mat4>)
    requires
        node_at(o, path) is Some,
    ensures
        0 <= preorder_rank(o, path) < flatten_spec(o, parent).len(),
        flatten_spec(o, parent)[preorder_rank(o, path)] == (
            node_at(o, path)->0.data,
            path_world(o, path, parent),
        ),
    decreases path.len(),
{
    let world = match parent {
        Option::None => o.xform,
        Option::Some(p) => mat_mul(o.xform, p),
    };
    lemma_flatten_counts_nodes(o, parent);
    if path.len() == 0 {
        assert(flatten_spec(o, parent)[0] == (o.data, world));
    } else {
        let k = path[0] as int;
        let child = o.children@[k];
        lemma_flatten_has_every_node(child, path.drop_first(), Option::Some(world));
        lemma_flatten_children_index(
            o.children@,
            world,
            k,
            preorder_rank(child, path.drop_first()),
        );
    }
}

/// The node a path of child indices leads to, starting from `o`: the empty
/// path names `o` itself.
pub open spec fn node_at(o: Object, path: Seq<usize>) -> Option<Object>
    decreases path.len(),
{
    if path.len() == 0 {
        Option::Some(o)
    } else if (path[0] as int) < o.children@.len() {
        node_at(o.children@[path[0] as int], path.drop_first())
    } else {
        Option::None
    }
}

/// The path of the first camera-payload node in depth-first pre-order below
/// (and including) `o`, or nothing where the subtree holds no camera.
pub open spec fn first_camera_path(o: Object) -> Option<Seq<usize>>
    decreases o, 0int, 0int,
{
    if o.data is Camera {
        Option::Some(Seq::empty())
    } else {
        first_camera_in_children(o.children@, 0)
    }
}

/// The first camera path among the subtrees `cs[k..]`, prefixed with the
/// index of the subtree it was found in.
pub open spec fn first_camera_in_children(cs: Seq<Object>, k: int) -> Option<Seq<usize>>
    decreases cs, 1int, cs.len() - k,
{
    if k < 0 || k >= cs.len() {
        Option::None
    } else {
        match first_camera_path(cs[k]) {
            Option::Some(p) => Option::Some(seq![k as usize] + p),
            Option::None => first_camera_in_children(cs, k + 1),
        }
    }
}

/// The first camera-tagged token of a flattened sequence.
pub open spec fn first_camera_token(s: Seq<(DataToken, glam::Mat4)>) -> Option<DataToken>
    decreases s.len(),
{
    if s.len() == 0 {
        Option::None
    } else if s[0].0 is Camera {
        Option::Some(s[0].0)
    } else {
        first_camera_token(s.drop_first())
    }
}

proof fn lemma_first_camera_token_concat(a: Seq<(DataToken, glam::Mat4)>, b: Seq<
    (DataToken, glam::Mat4),
>)
    ensures
        first_camera_token(a + b) == if first_camera_token(a) is Some {
            first_camera_token(a)
        } else {
            first_camera_token(b)
        },
    decreases a.len(),
{
    if a.len() == 0 {
        assert(a + b =~= b);
    } else {
        assert((a + b)[0] == a[0]);
        assert((a + b).drop_first() =~= a.drop_first() + b);
        lemma_first_camera_token_concat(a.drop_first(), b);
    }
}

/// The flattenings of the sibling subtrees `cs[k..]`, concatenated in order.
spec fn flatten_from(cs: Seq<Object>, k: int, parent: glam::Mat4) -> Seq<(DataToken, glam::Mat4)>
    decreases cs.len() - k,
{
    if k < 0 || k >= cs.len() {
        Seq::empty()
    } else {
        flatten_spec(cs[k], Option::Some(parent)) + flatten_from(cs, k + 1, parent)
    }
}

proof fn lemma_flatten_from_snoc(cs: Seq<Object>, k: int, parent: glam::Mat4)
    requires
        0 <= k <= cs.len() - 1,
    ensures
        flatten_from(cs, k, parent) == flatten_from(cs.drop_last(), k, parent) + flatten_spec(
            cs.last(),
            Option::Some(parent),
        ),
    decreases cs.len() - k,
{
    if k == cs.len() - 1 {
        assert(flatten_from(cs, k + 1, parent) =~= Seq::<(DataToken, glam::Mat4)>::empty());
        assert(flatten_from(cs.drop_last(), k, parent) =~= Seq::<(DataToken, glam::Mat4)>::empty());
        assert(flatten_from(cs, k, parent) =~= flatten_from(cs.drop_last(), k, parent)
            + flatten_spec(cs.last(), Option::Some(parent)));
    } else {
        assert(cs.drop_last()[k] == cs[k]);
        lemma_flatten_from_snoc(cs, k + 1, parent);
        assert(flatten_from(cs, k, parent) =~= flatten_from(cs.drop_last(), k, parent)
            + flatten_spec(cs.last(), Option::Some(parent)));
    }
}

proof fn lemma_flatten_from_is_flatten_children(cs: Seq<Object>, parent: glam::Mat4)
    ensures
        flatten_from(cs, 0, parent) == flatten_children(cs, parent),
    decreases cs.len(),
{
    if cs.len() > 0 {
        lemma_flatten_from_is_flatten_children(cs.drop_last(), parent);
        lemma_flatten_from_snoc(cs, 0, parent);
    }
}

proof fn lemma_camera_discovery_children(cs: Seq<Object>, k: int, parent: glam::Mat4)
    requires
        0 <= k <= cs.len(),
        cs.len() <= usize::MAX,
    ensures
        match first_camera_in_children(cs, k) {
            Option::Some(p) => {
                &&& p.len() >= 1
                &&& k <= p[0] < cs.len()
                &&& node_at(cs[p[0] as int], p.drop_first()) is Some
                &&& node_at(cs[p[0] as int], p.drop_first())->0.data is Camera
                &&& first_camera_token(flatten_from(cs, k, parent)) == Option::Some(
                    node_at(cs[p[0] as int], p.drop_first())->0.data,
                )
            },
            Option::None => first_camera_token(flatten_from(cs, k, parent)) is None,
        },
    decreases cs, 1int, cs.len() - k,
{
    if k < cs.len() {
        lemma_camera_discovery(cs[k], Option::Some(parent));
        lemma_camera_discovery_children(cs, k + 1, parent);
        lemma_first_camera_token_concat(
            flatten_spec(cs[k], Option::Some(parent)),
            flatten_from(cs, k + 1, parent),
        );
        match first_camera_path(cs[k]) {
            Option::Some(p) => {
                assert((seq![k as usize] + p).drop_first() =~= p);
            },
            Option::None => {},
        }
    }
}

/// Camera discovery agrees with the flattening: the path it finds leads to
/// a camera node whose token is the first camera token of the depth-first
/// pre-order flattening, and where it finds none the flattening holds no
/// camera at all.
pub proof fn lemma_camera_discovery(o: Object, parent: Option<glam::Mat4>)
    ensures
        match first_camera_path(o) {
            Option::Some(p) => {
                &&& node_at(o, p) is Some
                &&& node_at(o, p)->0.data is Camera
                &&& first_camera_token(flatten_spec(o, parent)) == Option::Some(
                    node_at(o, p)->0.data,
                )
            },
            Option::None => first_camera_token(flatten_spec(o, parent)) is None,
        },
    decreases o, 0int, 0int,
{
    let world = match parent {
        Option::None => o.xform,
        Option::Some(p) => mat_mul(o.xform, p),
    };
    assert(flatten_spec(o, parent)[0] == (o.data, world));
    if o.data is Camera {
        assert(first_camera_token(flatten_spec(o, parent)) == Option::Some(o.data));
    } else {
        assert(o.children@.len() <= usize::MAX) by {
            assert(o.children.len() == o.children@.len());
        }
        lemma_camera_discovery_children(o.children@, 0, world);
        lemma_flatten_from_is_flatten_children(o.children@, world);
        assert(flatten_spec(o, parent).drop_first() =~= flatten_children(o.children@, world));
    }
}

/// `after` is `before` with the local transform of the node at `path`
/// replaced by `m` and everything else unchanged.
pub open spec fn updated_at(before: Object, after: Object, path: Seq<usize>, m: glam::Mat4) -> bool
    decreases path.len(),
{
    if path.len() == 0 {
        after == (Object { xform: m, ..before })
    } else {
        &&& (path[0] as int) < before.children@.len()
        &&& after.xform == before.xform
        &&& after.data == before.data
        &&& after.children@.len() == before.children@.len()
        &&& forall|j: int|
            0 <= j < before.children@.len() && j != path[0] ==> after.children@[j]
                == before.children@[j]
        &&& updated_at(
            before.children@[path[0] as int],
            after.children@[path[0] as int],
            path.drop_first(),
            m,
        )
    }
}

impl Object {
    /// Borrows the node the path leads to, or nothing where the path walks
    /// out of the tree.
    pub fn node_at_path(&self, path: &Vec<usize>) -> (r: Option<&Object>)
        ensures
            match r {
                Some(n) => node_at(*self, path@) == Option::Some(*n),
                None => node_at(*self, path@) is None,
            },
    {
        proof {
            assert(path@.skip(0) =~= path@);
        }
        self.node_ref(path, 0)
    }

    fn node_ref<'a>(&'a self, path: &Vec<usize>, depth: usize) -> (r: Option<&'a Object>)
        requires
            depth <= path@.len(),
        ensures
            match r {
                Some(n) => node_at(*self, path@.skip(depth as int)) == Option::Some(*n),
                None => node_at(*self, path@.skip(depth as int)) is None,
            },
        decreases path@.len() - depth,
    {
        if depth == path.len() {
            proof {
                assert(path@.skip(depth as int).len() == 0);
            }
            Some(self)
        } else {
            let k = path[depth];
            proof {
                assert(path@.skip(depth as int)[0] == path@[depth as int]);
                assert(path@.skip(depth as int).drop_first() =~= path@.skip(depth as int + 1));
            }
            if k < self.children.len() {
                self.children[k].node_ref(path, depth + 1)
            } else {
                None
            }
        }
    }

    /// Replaces the local transform of the node at `path` with `m`, leaving
    /// every other node untouched. Nothing changes where the path walks out
    /// of the tree, and the result says so.
    pub fn set_xform_at(&mut self, path: &Vec<usize>, m: glam::Mat4) -> (ok: bool)
        ensures
            ok == (node_at(*old(self), path@) is Some),
            ok ==> updated_at(*old(self), *final(self), path@, m),
            !ok ==> *final(self) == *old(self),
    {
        proof {
            assert(path@.skip(0) =~= path@);
        }
        if self.node_at_path(path).is_some() {
            self.set_xform_rec(path, 0, m);
            true
        } else {
            false
        }
    }

    fn set_xform_rec(&mut self, path: &Vec<usize>, depth: usize, m: glam::Mat4)
        requires
            depth <= path@.len(),
            node_at(*old(self), path@.skip(depth as int)) is Some,
        ensures
            updated_at(*old(self), *final(self), path@.skip(depth as int), m),
        decreases path@.len() - depth,
    {
        if depth == path.len() {
            proof {
                assert(path@.skip(depth as int).len() == 0);
            }
            self.xform = m;
        } else {
            let k = path[depth];
            proof {
                assert(path@.skip(depth as int)[0] == path@[depth as int]);
                assert(path@.skip(depth as int).drop_first() =~= path@.skip(depth as int + 1));
            }
            let mut child = self.children.remove(k);
            child.set_xform_rec(path, depth + 1, m);
            self.children.insert(k, child);
            proof {
                assert(self.children@ =~= old(self).children@.update(
                    k as int,
                    self.children@[k as int],
                ));
            }
        }
    }
}

/// Keeps the model entries (`models` true) or the camera entries (`models`
/// false), preserving their order.
fn filter_by_tag(entries: Vec<(DataToken, glam::Mat4)>, models: bool) -> (r: Vec<
    (DataToken, glam::Mat4)
>)
    ensures
        models ==> r@ == entries@.filter(|e: (DataToken, glam::Mat4)| e.0 is Model),
        !models ==> r@ == entries@.filter(|e: (DataToken, glam::Mat4)| e.0 is Camera),
{
    let mut out: Vec<(DataToken, glam::Mat4)> = Vec::new();
    let n = entries.len();
    proof {
        reveal(Seq::filter);
        assert(entries@.take(0) =~= Seq::<(DataToken, glam::Mat4)>::empty());
    }
    for i in 0..n
        invariant
            n == entries@.len(),
            models ==> out@ == entries@.take(i as int).filter(
                |e: (DataToken, glam::Mat4)| e.0 is Model,
            ),
            !models ==> out@ == entries@.take(i as int).filter(
                |e: (DataToken, glam::Mat4)| e.0 is Camera,
            ),
    {
        let keep = match entries[i].0 {
            DataToken::Model(_) => models,
            DataToken::Camera(_) => !models,
            DataToken::Empty => false,
        };
        if keep {
            out.push(entries[i]);
        }
        proof {
            reveal(Seq::filter);
            assert(entries@.take(i + 1).drop_last() =~= entries@.take(i as int));
            assert(entries@.take(i + 1).last() == entries@[i as int]);
        }
    }
    proof {
        assert(entries@.take(n as int) =~= entries@);
    }
    out
}

} // verus!
