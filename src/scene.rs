use vstd::prelude::*;

verus! {

/// A scene lookup that the controller cannot do without.
#[derive(Clone, Copy, Debug, PartialEq, Eq, Structural)]
pub enum SceneError {
    /// No primary window exists.
    MissingWindow,
    /// More than one primary window exists.
    ExtraWindows,
    /// No fly camera exists.
    MissingCamera,
    /// More than one fly camera exists.
    ExtraCameras,
}

/// The controller needs exactly one primary window and exactly one camera;
/// the window is looked up first.
pub open spec fn singletons_result(windows: nat, cameras: nat) -> Result<(), SceneError> {
    if windows == 0 {
        Err(SceneError::MissingWindow)
    } else if windows > 1 {
        Err(SceneError::ExtraWindows)
    } else if cameras == 0 {
        Err(SceneError::MissingCamera)
    } else if cameras > 1 {
        Err(SceneError::ExtraCameras)
    } else {
        Ok(())
    }
}

/// Checks the numbers of primary windows and cameras that the scene holds.
pub fn check_singletons(windows: usize, cameras: usize) -> (r: Result<(), SceneError>)
    ensures
        r == singletons_result(windows as nat, cameras as nat),
{
    if windows == 0 {
        Err(SceneError::MissingWindow)
    } else if windows > 1 {
        Err(SceneError::ExtraWindows)
    } else if cameras == 0 {
        Err(SceneError::MissingCamera)
    } else if cameras > 1 {
        Err(SceneError::ExtraCameras)
    } else {
        Ok(())
    }
}

/// Positions, among the first `n` descendants, of those that carry geometry,
/// in walk order.
pub open spec fn mesh_positions(has_mesh: Seq<bool>, n: nat) -> Seq<int>
    decreases n,
{
    if n == 0 {
        Seq::empty()
    } else {
        let before = mesh_positions(has_mesh, (n - 1) as nat);
        if has_mesh[n - 1] {
            before.push(n - 1)
        } else {
            before
        }
    }
}

/// Of the descendants of a loaded scene, walked in order, the positions of
/// those that carry renderable geometry: each of them gets the
/// drag-to-rotate behaviour.
pub fn drag_targets(has_mesh: &Vec<bool>) -> (r: Vec<usize>)
    ensures
        r@.map_values(|i: usize| i as int) == mesh_positions(has_mesh@, has_mesh@.len()),
{
    let mut r: Vec<usize> = Vec::new();
    let mut i: usize = 0;
    while i < has_mesh.len()
        invariant
            i <= has_mesh@.len(),
            r@.map_values(|j: usize| j as int) == mesh_positions(has_mesh@, i as nat),
        decreases has_mesh@.len() - i,
    {
        if has_mesh[i] {
            r.push(i);
            assert(r@.map_values(|j: usize| j as int) =~= mesh_positions(has_mesh@, i as nat).push(i as int));
        }
        i = i + 1;
    }
    r
}

/// Every position chosen for the drag behaviour is a descendant that carries
/// geometry, each such descendant is chosen, and the positions rise strictly.
pub proof fn lemma_drag_targets_exact(has_mesh: Seq<bool>)
    ensures
        forall|k: int| 0 <= k < mesh_positions(has_mesh, has_mesh.len()).len() ==> {
            let p = #[trigger] mesh_positions(has_mesh, has_mesh.len())[k];
            0 <= p < has_mesh.len() && has_mesh[p]
        },
        forall|p: int| 0 <= p < has_mesh.len() && #[trigger] has_mesh[p]
            ==> mesh_positions(has_mesh, has_mesh.len()).contains(p),
        forall|a: int, b: int| 0 <= a < b < mesh_positions(has_mesh, has_mesh.len()).len()
            ==> mesh_positions(has_mesh, has_mesh.len())[a] < mesh_positions(has_mesh, has_mesh.len())[b],
{
    lemma_mesh_positions_facts(has_mesh, has_mesh.len());
}

proof fn lemma_mesh_positions_facts(has_mesh: Seq<bool>, n: nat)
    requires
        n <= has_mesh.len(),
    ensures
        forall|k: int| 0 <= k < mesh_positions(has_mesh, n).len() ==> {
            let p = #[trigger] mesh_positions(has_mesh, n)[k];
            0 <= p < n && has_mesh[p]
        },
        forall|p: int| 0 <= p < n && #[trigger] has_mesh[p]
            ==> mesh_positions(has_mesh, n).contains(p),
        forall|a: int, b: int| 0 <= a < b < mesh_positions(has_mesh, n).len()
            ==> mesh_positions(has_mesh, n)[a] < mesh_positions(has_mesh, n)[b],
    decreases n,
{
    if n > 0 {
        let m = (n - 1) as nat;
        lemma_mesh_positions_facts(has_mesh, m);
        let before = mesh_positions(has_mesh, m);
        if has_mesh[m as int] {
            let after = before.push(m as int);
            assert forall|p: int| 0 <= p < n && #[trigger] has_mesh[p] implies after.contains(p) by {
                if p < m {
                    let k = choose|k: int| 0 <= k < before.len() && before[k] == p;
                    assert(after[k] == p);
                } else {
                    assert(after[before.len() as int] == p);
                }
            }
        }
    }
}

} // verus!
