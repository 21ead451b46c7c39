//! Persistent per-eye view state and the per-frame merge of located views.
//!
//! Each frame the runtime reports one record per eye together with one
//! call-level flag word. A component (orientation or position) is taken
//! from the report only when its validity bit is set; otherwise the
//! previous value is retained, so stale-but-plausible data is preferred
//! over snapping to the origin. When the reported view count changes, the
//! persistent array is resized first and new entries start at the default
//! record.

use vstd::prelude::*;

use crate::pose::{
    has_orientation_valid, has_position_valid, orientation_valid, position_valid, FovBits,
    PoseBits, QuaternionBits, Vector3Bits,
};

verus! {

/// One per-eye record: a pose and the field of view it was reported with.
#[derive(Clone, Copy, Debug, PartialEq, Eq, Structural)]
pub struct ViewData {
    pub pose: PoseBits,
    pub fov: FovBits,
}

impl ViewData {
    /// The default record new entries of the persistent array start at.
    pub open spec fn default_spec() -> Self {
        ViewData { pose: PoseBits::default_spec(), fov: FovBits::default_spec() }
    }
}

impl Default for ViewData {
    fn default() -> (r: Self)
        ensures
            r == Self::default_spec(),
    {
        ViewData { pose: PoseBits::default(), fov: FovBits::default() }
    }
}

/// The persistent per-eye view array, kept across frames.
pub struct OxrViews(pub Vec<ViewData>);

impl View for OxrViews {
    type V = Seq<ViewData>;

    open spec fn view(&self) -> Seq<ViewData> {
        self.0@
    }
}

/// A view record as it leaves the native boundary: components whose
/// validity bit is unset are replaced by the default value, so an invalid
/// component is never read back out of the raw report.
pub open spec fn view_sanitized(flags: u64, raw: ViewData) -> ViewData {
    ViewData {
        pose: PoseBits {
            orientation: if orientation_valid(flags) {
                raw.pose.orientation
            } else {
                QuaternionBits::default_spec()
            },
            position: if position_valid(flags) {
                raw.pose.position
            } else {
                Vector3Bits::default_spec()
            },
        },
        fov: raw.fov,
    }
}

/// Builds the safe view record from a raw report and the call-level flag
/// word, zeroing every component not marked valid.
pub fn create_view(flags: u64, raw: ViewData) -> (v: ViewData)
    ensures
        v == view_sanitized(flags, raw),
{
    ViewData {
        pose: PoseBits {
            orientation: if has_orientation_valid(flags) {
                raw.pose.orientation
            } else {
                QuaternionBits::default()
            },
            position: if has_position_valid(flags) {
                raw.pose.position
            } else {
                Vector3Bits::default()
            },
        },
        fov: raw.fov,
    }
}

/// Sanitizes a whole batch of raw view reports under one call-level flag
/// word.
pub fn sanitize_views(flags: u64, raw: &Vec<ViewData>) -> (out: Vec<ViewData>)
    ensures
        out@.len() == raw@.len(),
        forall|i: int| 0 <= i < raw@.len() ==> out@[i] == view_sanitized(flags, raw@[i]),
{
    let mut out: Vec<ViewData> = Vec::new();
    let mut i: usize = 0;
    while i < raw.len()
        invariant
            i <= raw@.len(),
            out@.len() == i,
            forall|j: int| 0 <= j < i ==> out@[j] == view_sanitized(flags, raw@[j]),
        decreases raw@.len() - i,
    {
        out.push(create_view(flags, raw[i]));
        i = i + 1;
    }
    out
}

/// The persistent array brought to length `n`: surplus entries are dropped
/// from the end, missing entries are filled with the default record.
pub open spec fn resized(s: Seq<ViewData>, n: nat) -> Seq<ViewData> {
    if n <= s.len() {
        s.subrange(0, n as int)
    } else {
        s + Seq::new((n - s.len()) as nat, |i: int| ViewData::default_spec())
    }
}

/// Every entry added by a resize starts at the default record, and entries
/// below both lengths are kept unchanged.
pub proof fn lemma_resized_new_entries_default(s: Seq<ViewData>, n: nat)
    ensures
        resized(s, n).len() == n,
        forall|i: int| 0 <= i < n && i < s.len() ==> resized(s, n)[i] == s[i],
        forall|i: int| s.len() <= i < n ==> resized(s, n)[i] == ViewData::default_spec(),
{
}

/// Brings the persistent array to length `n` ahead of a merge.
fn resize_views(v: &mut Vec<ViewData>, n: usize)
    ensures
        final(v)@ == resized(old(v)@, n as nat),
{
    if n <= v.len() {
        v.truncate(n);
    } else {
        let ghost orig = v@;
        while v.len() < n
            invariant
                orig.len() <= v@.len() <= n,
                v@.subrange(0, orig.len() as int) == orig,
                forall|i: int| orig.len() <= i < v@.len() ==> v@[i] == ViewData::default_spec(),
            decreases n - v@.len(),
        {
            v.push(ViewData::default());
        }
        proof {
            assert(v@ =~= resized(orig, n as nat));
        }
    }
}

/// One persistent record after the merge: the whole report is taken when
/// both components are valid; a single valid component replaces only that
/// component and the field of view is kept; an all-invalid report leaves
/// the record untouched.
pub open spec fn merged_view(flags: u64, prev: ViewData, reported: ViewData) -> ViewData {
    if orientation_valid(flags) && position_valid(flags) {
        reported
    } else {
        ViewData {
            pose: PoseBits {
                orientation: if orientation_valid(flags) {
                    reported.pose.orientation
                } else {
                    prev.pose.orientation
                },
                position: if position_valid(flags) {
                    reported.pose.position
                } else {
                    prev.pose.position
                },
            },
            fov: prev.fov,
        }
    }
}

/// Law: the merge honours partial validity per component. When only the
/// position bit is set, the orientation is unchanged from the prior frame
/// and the position is taken from the report; symmetrically for the
/// orientation bit; a component is never reset on invalidity.
pub proof fn lemma_partial_validity_merge(flags: u64, prev: ViewData, reported: ViewData)
    ensures
        orientation_valid(flags) ==> merged_view(flags, prev, reported).pose.orientation
            == reported.pose.orientation,
        !orientation_valid(flags) ==> merged_view(flags, prev, reported).pose.orientation
            == prev.pose.orientation,
        position_valid(flags) ==> merged_view(flags, prev, reported).pose.position
            == reported.pose.position,
        !position_valid(flags) ==> merged_view(flags, prev, reported).pose.position
            == prev.pose.position,
{
}

/// Merges one reported record into one persistent record under the
/// call-level flag word.
pub fn merge_view(flags: u64, prev: ViewData, reported: ViewData) -> (r: ViewData)
    ensures
        r == merged_view(flags, prev, reported),
{
    let ov = has_orientation_valid(flags);
    let pv = has_position_valid(flags);
    if ov && pv {
        reported
    } else {
        ViewData {
            pose: PoseBits {
                orientation: if ov {
                    reported.pose.orientation
                } else {
                    prev.pose.orientation
                },
                position: if pv {
                    reported.pose.position
                } else {
                    prev.pose.position
                },
            },
            fov: prev.fov,
        }
    }
}

/// The persistent array starts with one default record per stereo eye,
/// before the first merge runs.
pub fn init_views() -> (v: OxrViews)
    ensures
        v@.len() == 2,
        forall|i: int| 0 <= i < 2 ==> v@[i] == ViewData::default_spec(),
{
    let mut views: Vec<ViewData> = Vec::new();
    views.push(ViewData::default());
    views.push(ViewData::default());
    OxrViews(views)
}

/// Per-frame view update: brings the persistent array to the reported
/// count (new entries default) and merges each reported record under the
/// call-level flag word. After the call the array length always equals the
/// reported count.
pub fn locate_views(views: &mut OxrViews, flags: u64, reported: &Vec<ViewData>)
    ensures
        final(views)@.len() == reported@.len(),
        forall|i: int|
            0 <= i < reported@.len() ==> final(views)@[i] == merged_view(
                flags,
                resized(old(views)@, reported@.len() as nat)[i],
                reported@[i],
            ),
{
    resize_views(&mut views.0, reported.len());
    let ghost base = views.0@;
    let mut out: Vec<ViewData> = Vec::new();
    let mut i: usize = 0;
    while i < reported.len()
        invariant
            i <= reported@.len(),
            out@.len() == i,
            views.0@ == base,
            base.len() == reported@.len(),
            forall|j: int| 0 <= j < i ==> out@[j] == merged_view(flags, base[j], reported@[j]),
        decreases reported@.len() - i,
    {
        out.push(merge_view(flags, views.0[i], reported[i]));
        i = i + 1;
    }
    views.0 = out;
}

/// The record the camera with this index renders from, when the array has
/// one for it.
pub fn view_for_camera(views: &OxrViews, camera_index: u32) -> (r: Option<ViewData>)
    ensures
        (camera_index as int) < views@.len() ==> r == Some(views@[camera_index as int]),
        (camera_index as int) >= views@.len() ==> r == None::<ViewData>,
{
    if (camera_index as usize) < views.0.len() {
        Some(views.0[camera_index as usize])
    } else {
        None
    }
}

/// Copies the located pose of one eye into that camera's transform; a
/// camera without a record keeps its previous transform.
pub fn update_camera_transform(
    views: &OxrViews,
    camera_index: u32,
    transform: &mut PoseBits,
) -> (updated: bool)
    ensures
        (camera_index as int) < views@.len() ==> updated && *final(transform) == views@[
            camera_index as int
        ].pose,
        (camera_index as int) >= views@.len() ==> !updated && *final(transform) == *old(transform),
{
    if (camera_index as usize) < views.0.len() {
        *transform = views.0[camera_index as usize].pose;
        true
    } else {
        false
    }
}

} // verus!
