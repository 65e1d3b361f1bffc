//! The card-spawner dialog: reacting to open requests by describing the
//! modal overlay to show. The description is plain data; drawing it is the
//! surrounding application's job.

use vstd::prelude::*;

verus! {

/// Request to open the card-spawner dialog.
#[derive(Clone, Copy, Debug)]
pub struct CardSpawnerOpenEvent;

/// Notification that a card was chosen in the dialog. A hook for a later
/// selection flow; nothing consumes it yet.
#[derive(Clone, Copy, Debug)]
pub struct CardSpawnerSelectedEvent;

/// Marker for the dialog's UI root, so it can be found and torn down.
#[derive(Clone, Copy, Debug)]
pub struct CardSpawnerModalUI;

/// Description of the spawner dialog: a full-window centered overlay, a
/// panel filling most of it, and a text-input field inside the panel.
/// Extents are percentages of the parent or pixel counts.
#[derive(Clone, Copy, Debug, PartialEq, Eq, Structural)]
pub struct SpawnerModal {
    pub overlay_width_percent: u8,
    pub overlay_height_percent: u8,
    pub panel_width_percent: u8,
    pub panel_height_percent: u8,
    pub input_width_px: u32,
    pub input_border_px: u32,
    pub input_padding_px: u32,
    pub input_font_size: u32,
}

/// The one dialog the spawner ever opens.
pub open spec fn standard_spawner_modal() -> SpawnerModal {
    SpawnerModal {
        overlay_width_percent: 100,
        overlay_height_percent: 100,
        panel_width_percent: 80,
        panel_height_percent: 80,
        input_width_px: 200,
        input_border_px: 5,
        input_padding_px: 5,
        input_font_size: 34,
    }
}

/// React to the tick's open requests: when at least one arrived, exactly
/// one standard dialog is opened, however many requests queued up; with
/// none, nothing happens.
pub fn react_to_open_requests(pending: &Vec<CardSpawnerOpenEvent>) -> (modal: Option<
    SpawnerModal,
>)
    ensures
        modal == if pending@.len() > 0 {
            Some(standard_spawner_modal())
        } else {
            None::<SpawnerModal>
        },
{
    if pending.len() > 0 {
        Some(
            SpawnerModal {
                overlay_width_percent: 100,
                overlay_height_percent: 100,
                panel_width_percent: 80,
                panel_height_percent: 80,
                input_width_px: 200,
                input_border_px: 5,
                input_padding_px: 5,
                input_font_size: 34,
            },
        )
    } else {
        None
    }
}

} // verus!
