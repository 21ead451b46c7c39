//! Per-frame composition layer assembly.
//!
//! At frame end the current per-eye view state is turned into one stereo
//! projection layer: one entry per eye, each referencing the shared
//! swapchain through its own array-layer index and a full-resolution
//! rectangle. A layer is ephemeral — built fresh from the views each
//! frame and submitted once.

use vstd::prelude::*;

use crate::pose::{FovBits, PoseBits};
use crate::views::{OxrViews, ViewData};

verus! {

/// The slice of the shared swapchain one eye renders from: the eye's
/// array layer and the full image rectangle (offset is always the
/// origin).
#[derive(Clone, Copy, Debug, PartialEq, Eq, Structural)]
pub struct SwapchainSubImageData {
    pub image_array_index: u32,
    pub rect_width: u32,
    pub rect_height: u32,
}

/// One eye's entry in a projection layer: the located pose and field of
/// view, plus the sub-image it was rendered into.
#[derive(Clone, Copy, Debug, PartialEq, Eq, Structural)]
pub struct LayerProjectionViewData {
    pub pose: PoseBits,
    pub fov: FovBits,
    pub sub_image: SwapchainSubImageData,
}

/// A stereo projection layer ready for submission at frame end.
pub struct CompositionLayerData {
    pub views: Vec<LayerProjectionViewData>,
}

/// The layer entry one eye contributes: its current view record, with the
/// eye index selecting the array layer of the shared swapchain.
pub open spec fn layer_view_spec(
    view: ViewData,
    eye: int,
    width: u32,
    height: u32,
) -> LayerProjectionViewData {
    LayerProjectionViewData {
        pose: view.pose,
        fov: view.fov,
        sub_image: SwapchainSubImageData {
            image_array_index: eye as u32,
            rect_width: width,
            rect_height: height,
        },
    }
}

/// Builds the projection layer for this frame from the current per-eye
/// views: one entry per eye, in eye order, each covering the full render
/// resolution on its own array layer of the shared swapchain.
pub fn build_projection_layer(views: &OxrViews, width: u32, height: u32) -> (layer:
    CompositionLayerData)
    requires
        views@.len() <= u32::MAX,
    ensures
        layer.views@.len() == views@.len(),
        forall|i: int|
            0 <= i < views@.len() ==> layer.views@[i] == layer_view_spec(
                views@[i],
                i,
                width,
                height,
            ),
{
    let mut out: Vec<LayerProjectionViewData> = Vec::new();
    let mut i: usize = 0;
    while i < views.0.len()
        invariant
            i <= views@.len(),
            views@.len() <= u32::MAX,
            out@.len() == i,
            forall|j: int|
                0 <= j < i ==> out@[j] == layer_view_spec(views@[j], j, width, height),
        decreases views@.len() - i,
    {
        let view = views.0[i];
        out.push(
            LayerProjectionViewData {
                pose: view.pose,
                fov: view.fov,
                sub_image: SwapchainSubImageData {
                    image_array_index: i as u32,
                    rect_width: width,
                    rect_height: height,
                },
            },
        );
        i = i + 1;
    }
    CompositionLayerData { views: out }
}

} // verus!
