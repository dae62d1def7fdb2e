//! The displays attached to the machine.
use vstd::prelude::*;

verus! {

/// One active display.
pub struct DisplayInfo {
    pub id: u32,
    pub width: u32,
    pub height: u32,
    pub is_primary: bool,
    pub is_mirror: bool,
    pub is_virtual: bool,
    pub model_number: u32,
}

/// A display as reported by the system: primary when it is the main
/// display, virtual when it has no model number.
pub fn describe_display(
    id: u32,
    width: u32,
    height: u32,
    main_display_id: u32,
    is_mirror: bool,
    model_number: u32,
) -> (r: DisplayInfo)
    ensures
        r.id == id,
        r.width == width,
        r.height == height,
        r.is_primary == (id == main_display_id),
        r.is_mirror == is_mirror,
        r.is_virtual == (model_number == 0),
        r.model_number == model_number,
{
    DisplayInfo {
        id,
        width,
        height,
        is_primary: id == main_display_id,
        is_mirror,
        is_virtual: model_number == 0,
        model_number,
    }
}

/// What the system reports of one display: its identifier, width, height,
/// whether it mirrors another, and its model number.
pub type RawDisplay = (u32, u32, u32, bool, u32);

pub open spec fn display_of(raw: RawDisplay, main_display_id: u32) -> DisplayInfo {
    DisplayInfo {
        id: raw.0,
        width: raw.1,
        height: raw.2,
        is_primary: raw.0 == main_display_id,
        is_mirror: raw.3,
        is_virtual: raw.4 == 0,
        model_number: raw.4,
    }
}

/// The active displays, in the order the system lists them.
pub fn enumerate_displays(displays: &Vec<RawDisplay>, main_display_id: u32) -> (r: Vec<DisplayInfo>)
    ensures
        r@.len() == displays@.len(),
        forall|i: int| 0 <= i < r@.len() ==> #[trigger] r@[i] == display_of(displays@[i], main_display_id),
{
    let mut out: Vec<DisplayInfo> = Vec::new();
    let mut i: usize = 0;
    while i < displays.len()
        invariant
            i <= displays@.len(),
            out@.len() == i,
            forall|k: int| 0 <= k < i ==> #[trigger] out@[k] == display_of(displays@[k], main_display_id),
        decreases displays.len() - i,
    {
        let (id, width, height, is_mirror, model_number) = displays[i];
        out.push(describe_display(id, width, height, main_display_id, is_mirror, model_number));
        i += 1;
    }
    out
}

/// The first display that is not the primary one.
pub fn secondary_display(displays: &Vec<DisplayInfo>) -> (r: Option<usize>)
    ensures
        match r {
            Some(i) => i < displays@.len() && !displays@[i as int].is_primary && forall|k: int|
                0 <= k < i ==> displays@[k].is_primary,
            None => forall|k: int| 0 <= k < displays@.len() ==> displays@[k].is_primary,
        },
{
    let mut i: usize = 0;
    while i < displays.len()
        invariant
            i <= displays@.len(),
            forall|k: int| 0 <= k < i ==> displays@[k].is_primary,
        decreases displays.len() - i,
    {
        if !displays[i].is_primary {
            return Some(i);
        }
        i += 1;
    }
    None
}

} // verus!
