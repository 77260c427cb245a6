//! The render pipeline description, its viewport, and the scene of
//! entities a frame draws.
use vstd::prelude::*;
use crate::error::{Error, Result};

verus! {

/// Width and height of the viewport, in pixels.
#[derive(Debug, Clone, Copy, PartialEq, Eq, Structural)]
pub struct ViewportSize {
    pub x: u32,
    pub y: u32,
}

/// Render pipeline description.
pub struct RenderPipeline {
    pub viewport_size: ViewportSize,
}

impl RenderPipeline {
    /// Create a render pipeline for a `width` × `height` viewport; a zero
    /// dimension is a rendering error.
    pub fn new(width: u32, height: u32) -> (r: Result<Self>)
        ensures
            r is Ok <==> (width > 0 && height > 0),
            r matches Ok(p) ==> p.viewport_size.x == width && p.viewport_size.y == height,
            r matches Err(e) ==> e matches Error::Render(m) && m@
                == "Viewport dimensions must be positive"@,
    {
        if width == 0 || height == 0 {
            return Err(Error::Render(String::from_str("Viewport dimensions must be positive")));
        }
        Ok(RenderPipeline { viewport_size: ViewportSize { x: width, y: height } })
    }

    /// Initialize the GPU context; the surface is set up by the renderer
    /// loop, so this step always succeeds.
    pub fn init(&self) -> (r: Result<()>)
        ensures
            r is Ok,
    {
        Ok(())
    }
}

} // verus!

verus! {

// ─── The scene ───────────────────────────────────────────────────────────────

/// An entity of a scene: its id, and what is drawn for it.
pub struct SceneEntity<T> {
    pub id: String,
    pub body: T,
}

/// The entities a frame draws, in the order they were added.
pub struct Scene<T> {
    pub entities: Vec<SceneEntity<T>>,
}

/// The first position, from `i` on, of an entity of `s` with the id `id`.
pub open spec fn find_id_from<T>(s: Seq<SceneEntity<T>>, id: Seq<char>, i: int) -> Option<int>
    decreases s.len() - i,
{
    if i < 0 || i >= s.len() {
        None
    } else if s[i].id@ == id {
        Some(i)
    } else {
        find_id_from(s, id, i + 1)
    }
}

/// The first position of an entity of `s` with the id `id`, if any.
pub open spec fn find_id<T>(s: Seq<SceneEntity<T>>, id: Seq<char>) -> Option<int> {
    find_id_from(s, id, 0)
}

/// A lookup that finds a position finds one inside the scene, holding an
/// entity with the sought id.
pub proof fn lemma_found_entity_has_id<T>(s: Seq<SceneEntity<T>>, id: Seq<char>, i: int)
    ensures
        find_id_from(s, id, i) matches Some(p) ==> 0 <= i <= p < s.len() && s[p].id@ == id,
    decreases s.len() - i,
{
    if 0 <= i < s.len() && s[i].id@ != id {
        lemma_found_entity_has_id(s, id, i + 1);
    }
}

/// An entity just added is found again by its id (the first entity with
/// that id is found, which may be an earlier one).
pub proof fn lemma_added_entity_is_found<T>(s: Seq<SceneEntity<T>>, e: SceneEntity<T>)
    ensures
        find_id(s.push(e), e.id@) is Some,
{
    lemma_found_from_push(s, e, 0);
}

proof fn lemma_found_from_push<T>(s: Seq<SceneEntity<T>>, e: SceneEntity<T>, i: int)
    requires
        0 <= i <= s.len(),
    ensures
        find_id_from(s.push(e), e.id@, i) is Some,
    decreases s.len() - i,
{
    let t = s.push(e);
    if t[i].id@ != e.id@ {
        lemma_found_from_push(s, e, i + 1);
    }
}

impl<T> Scene<T> {
    /// An empty scene.
    pub fn new() -> (s: Self)
        ensures
            s.entities@.len() == 0,
    {
        Scene { entities: Vec::new() }
    }

    /// Add an entity after the others.
    pub fn add_entity(&mut self, entity: SceneEntity<T>)
        ensures
            final(self).entities@ == old(self).entities@.push(entity),
    {
        self.entities.push(entity);
    }

    /// The first position holding an entity with the id `id`.
    fn position_of(&self, id: &str) -> (r: Option<usize>)
        ensures
            match r {
                Some(p) => find_id(self.entities@, id@) == Some(p as int) && p < self.entities@.len(),
                None => find_id(self.entities@, id@) is None,
            },
    {
        let n = self.entities.len();
        let mut i: usize = 0;
        while i < n
            invariant
                n == self.entities@.len(),
                i <= n,
                find_id(self.entities@, id@) == find_id_from(self.entities@, id@, i as int),
            decreases n - i,
        {
            if crate::text::str_eq(self.entities[i].id.as_str(), id) {
                return Some(i);
            }
            i = i + 1;
        }
        None
    }

    /// Remove the first entity with the id `id`; whether there was one.
    pub fn remove_entity(&mut self, id: &str) -> (removed: bool)
        ensures
            match find_id(old(self).entities@, id@) {
                Some(p) => removed && final(self).entities@ == old(self).entities@.remove(p),
                None => !removed && final(self).entities@ == old(self).entities@,
            },
    {
        match self.position_of(id) {
            Some(p) => {
                let _ = self.entities.remove(p);
                true
            },
            None => false,
        }
    }

    /// How many entities the scene holds.
    pub fn entity_count(&self) -> (n: usize)
        ensures
            n == self.entities@.len(),
    {
        self.entities.len()
    }

    /// The first entity with the id `id`, if any.
    pub fn get_entity(&self, id: &str) -> (r: Option<&SceneEntity<T>>)
        ensures
            match find_id(self.entities@, id@) {
                Some(p) => r matches Some(e) && *e == self.entities@[p],
                None => r is None,
            },
    {
        match self.position_of(id) {
            Some(p) => {
                Some(&self.entities[p])
            },
            None => None,
        }
    }

    /// The first entity with the id `id`, if any, to change in place.
    pub fn get_entity_mut(&mut self, id: &str) -> (r: Option<&mut SceneEntity<T>>)
        ensures
            match find_id(old(self).entities@, id@) {
                Some(p) => {
                    &&& r is Some
                    &&& *r.unwrap() == old(self).entities@[p]
                    &&& final(self).entities@ == old(self).entities@.update(p, *final(r.unwrap()))
                },
                None => r is None && final(self).entities@ == old(self).entities@,
            },
    {
        match self.position_of(id) {
            Some(p) => {
                Some(&mut self.entities[p])
            },
            None => None,
        }
    }

    /// Remove every entity.
    pub fn clear(&mut self)
        ensures
            final(self).entities@.len() == 0,
    {
        self.entities.clear();
    }

    /// Check the scene; every scene can be drawn, so this always succeeds.
    pub fn validate(&self) -> (r: Result<()>)
        ensures
            r is Ok,
    {
        Ok(())
    }
}

impl<T> Default for Scene<T> {
    /// An empty scene.
    fn default() -> (s: Self)
        ensures
            s.entities@.len() == 0,
    {
        Scene::new()
    }
}

} // verus!
