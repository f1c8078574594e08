use vstd::prelude::*;

verus! {

/// What an object of the reactor's scene is animated as.
#[derive(Clone, Copy, PartialEq, Eq, Structural, Debug)]
pub enum SceneTag {
    ControlRod,
    Turbine,
}

/// The animation role of the scene object named `name`: the three control
/// rods and the turbine; other objects stay still.
pub open spec fn tag_of(name: Seq<char>) -> Option<SceneTag> {
    if name == "Control 1"@ || name == "Control 2"@ || name == "Control 3"@ {
        Some(SceneTag::ControlRod)
    } else if name == "Turbine"@ {
        Some(SceneTag::Turbine)
    } else {
        None
    }
}

/// Whether two strings hold the same characters.
pub fn same_text(a: &str, b: &str) -> (same: bool)
    ensures
        same == (a@ == b@),
{
    let n = a.unicode_len();
    if n != b.unicode_len() {
        return false;
    }
    let mut i: usize = 0;
    while i < n
        invariant
            n == a@.len(),
            n == b@.len(),
            i <= n,
            forall|j: int| 0 <= j < i ==> a@[j] == b@[j],
        decreases n - i,
    {
        if a.get_char(i) != b.get_char(i) {
            return false;
        }
        i = i + 1;
    }
    assert(a@ =~= b@);
    true
}

/// The animation role of the scene object named `name`.
pub fn scene_object_tag(name: &str) -> (tag: Option<SceneTag>)
    ensures
        tag == tag_of(name@),
{
    if same_text(name, "Control 1") || same_text(name, "Control 2") || same_text(name, "Control 3") {
        Some(SceneTag::ControlRod)
    } else if same_text(name, "Turbine") {
        Some(SceneTag::Turbine)
    } else {
        None
    }
}

} // verus!
