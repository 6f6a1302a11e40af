use vstd::prelude::*;
use crate::error::AdminError;
use crate::resource::JsonResource;

verus! {

/// The look of the admin pages; it has no settings yet.
#[derive(Debug, Clone, Copy, PartialEq, Eq, Structural)]
pub struct Theme {}

impl Default for Theme {
    fn default() -> (r: Self)
        ensures
            r == (Theme {}),
    {
        Theme {}
    }
}

/// The paths of a list of resources, in order.
pub open spec fn paths_of<Ops>(resources: Seq<JsonResource<Ops>>) -> Seq<Seq<char>> {
    resources.map_values(|r: JsonResource<Ops>| r.path@)
}

/// No path occurs twice.
pub open spec fn paths_distinct(paths: Seq<Seq<char>>) -> bool {
    forall|i: int, j: int| 0 <= i < j < paths.len() ==> #[trigger] paths[i] != #[trigger] paths[j]
}

/// The registry: the shared context and the resources in registration order,
/// each under its own path.
pub struct Admin<TContext, Ops> {
    pub title: String,
    pub theme: Theme,
    pub resources: Vec<JsonResource<Ops>>,
    pub context: TContext,
}

impl<TContext, Ops> Admin<TContext, Ops> {
    /// Well formed: paths are unique.
    pub open spec fn wf(&self) -> bool {
        paths_distinct(paths_of(self.resources@))
    }

    /// A registry with no resources yet.
    pub fn new(context: TContext) -> (r: Self)
        ensures
            r.wf(),
            r.title@ == "Razer admin"@,
            r.theme == (Theme {}),
            r.resources@.len() == 0,
            r.context == context,
    {
        Admin {
            title: String::from_str("Razer admin"),
            theme: Theme::default(),
            resources: Vec::new(),
            context,
        }
    }

    /// Whether a resource is registered under `path`.
    pub fn has_path(&self, path: &String) -> (r: bool)
        ensures
            r == paths_of(self.resources@).contains(path@),
    {
        let ghost p = paths_of(self.resources@);
        let mut i: usize = 0;
        while i < self.resources.len()
            invariant
                i <= self.resources@.len(),
                p == paths_of(self.resources@),
                forall|j: int| 0 <= j < i ==> #[trigger] p[j] != path@,
            decreases self.resources@.len() - i,
        {
            if self.resources[i].path == *path {
                assert(p[i as int] == path@);
                return true;
            }
            i = i + 1;
        }
        false
    }

    /// Appends a resource; one whose path is taken is refused and the
    /// registry is left as it was.
    pub fn register(&mut self, resource: JsonResource<Ops>) -> (r: Result<(), AdminError>)
        requires
            old(self).wf(),
        ensures
            final(self).wf(),
            final(self).title == old(self).title,
            final(self).theme == old(self).theme,
            final(self).context == old(self).context,
            paths_of(old(self).resources@).contains(resource.path@) ==> {
                &&& r == Err::<(), AdminError>(AdminError::InternalError)
                &&& final(self).resources@ == old(self).resources@
            },
            !paths_of(old(self).resources@).contains(resource.path@) ==> {
                &&& r is Ok
                &&& final(self).resources@ == old(self).resources@.push(resource)
            },
    {
        if self.has_path(&resource.path) {
            return Err(AdminError::InternalError);
        }
        let ghost before = self.resources@;
        self.resources.push(resource);
        proof {
            let p = paths_of(self.resources@);
            assert(p =~= paths_of(before).push(resource.path@));
            assert forall|i: int, j: int| 0 <= i < j < p.len() implies #[trigger] p[i] != #[trigger] p[j] by {
                if j == p.len() - 1 {
                    assert(paths_of(before)[i] == p[i]);
                }
            }
        }
        Ok(())
    }
}

} // verus!
