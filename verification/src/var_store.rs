//! The variable store: an indirection table from stable handles to tensor
//! shapes and, once compilation has run, to backend-resident tensors.

use vstd::prelude::*;

verus! {

use crate::backend::{Graph, GraphModel, GpuVarIndex};

/// A tensor slot registered with the store.
///
/// `managed` marks a variable whose backend storage the store's own compile
/// pass materializes; an unmanaged (transient) variable instead receives its
/// backend handle from the build step of the node that produces it.  A
/// backend handle, once set, is never reassigned within a session.
#[derive(Copy, Clone, Debug)]
pub struct Variable {
    pub shape: (usize, usize),
    pub gpu: Option<GpuVarIndex>,
    pub managed: bool,
}

/// The store itself.  Entries are only ever appended, so a handle stays
/// valid for the whole session.
pub struct VarStore {
    vars: Vec<Variable>,
}

impl View for VarStore {
    type V = Seq<Variable>;

    closed spec fn view(&self) -> Seq<Variable> {
        self.vars@
    }
}

/// A stable handle into the store.
#[derive(Copy, Clone, Debug, PartialEq, Eq, Hash, Structural)]
pub struct VarIndex(pub usize);

/// State of the store and the backend graph after the store's compile pass
/// has materialized the managed entries at positions `k` and beyond: every
/// managed entry without a backend handle is allocated backend storage of
/// its shape and records the resulting handle; every other entry is left
/// untouched.
pub open spec fn materialize_from(vars: Seq<Variable>, g: GraphModel, k: int) -> (Seq<Variable>, GraphModel)
    decreases vars.len() - k,
{
    if k < 0 || k >= vars.len() {
        (vars, g)
    } else {
        let v = vars[k];
        if v.managed && v.gpu is None {
            let handle = GpuVarIndex(g.vars.len() as usize);
            let vars2 = vars.update(k, (Variable { shape: v.shape, gpu: Some(handle), managed: true }));
            let g2 = GraphModel { vars: g.vars.push(v.shape), nodes: g.nodes, gradients: g.gradients };
            materialize_from(vars2, g2, k + 1)
        } else {
            materialize_from(vars, g, k + 1)
        }
    }
}

/// How the pass treats each entry at position `i >= k`: shape and
/// managedness are kept; a handle already present is kept; a managed entry
/// without a handle receives one; a transient entry without a handle keeps
/// none.  The backend graph only gains tensors.
pub proof fn lemma_materialize_pointwise(vars: Seq<Variable>, g: GraphModel, k: int)
    requires
        0 <= k,
    ensures
        materialize_from(vars, g, k).0.len() == vars.len(),
        materialize_from(vars, g, k).1.nodes == g.nodes,
        materialize_from(vars, g, k).1.gradients == g.gradients,
        forall|i: int|
            #![trigger vars[i]]
            k <= i < vars.len() ==> {
                let v0 = vars[i];
                let v1 = materialize_from(vars, g, k).0[i];
                &&& v1.shape == v0.shape
                &&& v1.managed == v0.managed
                &&& (v0.gpu is Some ==> v1.gpu == v0.gpu)
                &&& (v0.gpu is None && v0.managed ==> v1.gpu is Some)
                &&& (v0.gpu is None && !v0.managed ==> v1.gpu is None)
            },
        forall|i: int|
            0 <= i < k && i < vars.len() ==> materialize_from(vars, g, k).0[i] == vars[i],
    decreases vars.len() - k,
{
    if 0 <= k < vars.len() {
        let v = vars[k];
        if v.managed && v.gpu is None {
            let handle = GpuVarIndex(g.vars.len() as usize);
            let vars2 = vars.update(k, (Variable { shape: v.shape, gpu: Some(handle), managed: true }));
            let g2 = GraphModel { vars: g.vars.push(v.shape), nodes: g.nodes, gradients: g.gradients };
            lemma_materialize_pointwise(vars2, g2, k + 1);
            assert(materialize_from(vars, g, k) == materialize_from(vars2, g2, k + 1));
            assert forall|i: int| 0 <= i < k && i < vars.len() implies materialize_from(
                vars,
                g,
                k,
            ).0[i] == vars[i] by {
                assert(materialize_from(vars2, g2, k + 1).0[i] == vars2[i]);
            }
            assert(materialize_from(vars2, g2, k + 1).0[k] == vars2[k]);
            assert forall|i: int| #![trigger vars[i]] k < i < vars.len() implies vars2[i]
                == vars[i] by {}
        } else {
            lemma_materialize_pointwise(vars, g, k + 1);
            assert(materialize_from(vars, g, k) == materialize_from(vars, g, k + 1));
            assert forall|i: int| 0 <= i < k && i < vars.len() implies materialize_from(
                vars,
                g,
                k,
            ).0[i] == vars[i] by {
                assert(materialize_from(vars, g, k + 1).0[i] == vars[i]);
            }
        }
    }
}

impl VarStore {
    pub fn new() -> (s: VarStore)
        ensures
            s@.len() == 0,
    {
        VarStore { vars: Vec::new() }
    }

    pub fn len(&self) -> (n: usize)
        ensures
            n == self@.len(),
    {
        self.vars.len()
    }

    /// Register a transient variable: no backend allocation is implied; its
    /// backend handle is filled in by the build step of the node that
    /// produces it.
    pub fn add(&mut self, shape: (usize, usize)) -> (v: VarIndex)
        ensures
            final(self)@ == old(self)@.push((Variable { shape, gpu: None, managed: false })),
            v.0 == old(self)@.len(),
    {
        self.vars.push(Variable { shape, gpu: None, managed: false });
        VarIndex(self.vars.len() - 1)
    }

    /// Register a managed variable: the store's own compile pass allocates
    /// its backend storage, independent of any node's build step.
    pub fn add_managed(&mut self, shape: (usize, usize)) -> (v: VarIndex)
        ensures
            final(self)@ == old(self)@.push((Variable { shape, gpu: None, managed: true })),
            v.0 == old(self)@.len(),
    {
        self.vars.push(Variable { shape, gpu: None, managed: true });
        VarIndex(self.vars.len() - 1)
    }

    pub fn get(&self, v: VarIndex) -> (r: &Variable)
        requires
            v.0 < self@.len(),
        ensures
            *r == self@[v.0 as int],
    {
        &self.vars[v.0]
    }

    pub fn get_mut(&mut self, v: VarIndex) -> (r: &mut Variable)
        requires
            v.0 < old(self)@.len(),
        ensures
            *r == old(self)@[v.0 as int],
            final(self)@ == old(self)@.update(v.0 as int, *final(r)),
    {
        &mut self.vars[v.0]
    }

    /// The store's compile pass: allocate backend storage for every managed
    /// variable that has none yet and record the resulting handle.
    /// Transient variables and handles already set are left untouched.
    pub fn gpu_build(&mut self, graph: &mut Graph)
        ensures
            (final(self)@, final(graph)@) == materialize_from(old(self)@, old(graph)@, 0),
            final(self)@.len() == old(self)@.len(),
            final(graph)@.nodes == old(graph)@.nodes,
            final(graph)@.gradients == old(graph)@.gradients,
            forall|i: int|
                #![trigger old(self)@[i]]
                0 <= i < old(self)@.len() ==> {
                    let v0 = old(self)@[i];
                    let v1 = final(self)@[i];
                    &&& v1.shape == v0.shape
                    &&& v1.managed == v0.managed
                    &&& (v0.gpu is Some ==> v1.gpu == v0.gpu)
                    &&& (v0.gpu is None && v0.managed ==> v1.gpu is Some)
                    &&& (v0.gpu is None && !v0.managed ==> v1.gpu is None)
                },
    {
        let ghost vars0 = self@;
        let ghost g0 = graph@;
        let mut k: usize = 0;
        while k < self.vars.len()
            invariant
                k <= self@.len(),
                materialize_from(vars0, g0, 0) == materialize_from(self@, graph@, k as int),
                self@.len() == vars0.len(),
                graph@.nodes == g0.nodes,
                graph@.gradients == g0.gradients,
            decreases self@.len() - k,
        {
            let v = self.vars[k];
            if v.managed && v.gpu.is_none() {
                let handle = graph.add_variable(v.shape);
                self.vars[k] = Variable { shape: v.shape, gpu: Some(handle), managed: true };
            }
            k = k + 1;
        }
        proof {
            lemma_materialize_pointwise(vars0, g0, 0);
        }
    }
}

impl VarIndex {
    pub fn get<'a>(&self, v: &'a VarStore) -> (r: &'a Variable)
        requires
            self.0 < v@.len(),
        ensures
            *r == v@[self.0 as int],
    {
        v.get(*self)
    }

    pub fn get_mut<'a>(&self, v: &'a mut VarStore) -> (r: &'a mut Variable)
        requires
            self.0 < old(v)@.len(),
        ensures
            *r == old(v)@[self.0 as int],
            final(v)@ == old(v)@.update(self.0 as int, *final(r)),
    {
        v.get_mut(*self)
    }
}

/// Law: the store's compile pass, run on a store where no variable has a
/// backend handle yet, hands a handle to exactly the managed entries; the
/// transient entries stay unmaterialized.
pub proof fn lemma_materialize_only_managed(vars: Seq<Variable>, g: GraphModel)
    requires
        forall|i: int| 0 <= i < vars.len() ==> vars[i].gpu is None,
    ensures
        materialize_from(vars, g, 0).0.len() == vars.len(),
        forall|i: int|
            0 <= i < vars.len() ==> (materialize_from(vars, g, 0).0[i].gpu is Some <==> vars[i].managed),
{
    lemma_materialize_pointwise(vars, g, 0);
}

} // verus!
