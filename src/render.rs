//! Moving and turning the displayed model from held keys.
use vstd::prelude::*;
use crate::components::ModelRotateReposition;
use crate::fixed::{sat64, saturate};
use crate::resource::OperationSettings;

verus! {

/// Keys held down during one tick.
#[derive(Clone, Copy, Debug, PartialEq, Eq, Structural)]
pub struct HeldKeys {
    pub arrow_up: bool,
    pub arrow_down: bool,
    pub arrow_right: bool,
    pub arrow_left: bool,
    pub key_w: bool,
    pub key_s: bool,
    pub key_d: bool,
    pub key_a: bool,
}

/// A turn of the model about one of its own axes, in microradians.
#[derive(Clone, Copy, Debug, PartialEq, Eq, Structural)]
pub enum ModelRotation {
    AboutX(i64),
    AboutY(i64),
}

/// The turn that the arrow keys ask for: up and down turn about X (up by
/// minus the sensitivity), right and left about Y (left by minus it); the
/// first held key in that order wins.
pub open spec fn rotation_spec(keys: HeldKeys, s: int) -> Option<ModelRotation> {
    if keys.arrow_up {
        Some(ModelRotation::AboutX(sat64(-s) as i64))
    } else if keys.arrow_down {
        Some(ModelRotation::AboutX(s as i64))
    } else if keys.arrow_right {
        Some(ModelRotation::AboutY(s as i64))
    } else if keys.arrow_left {
        Some(ModelRotation::AboutY(sat64(-s) as i64))
    } else {
        None
    }
}

/// The model moved as W, S, D and A ask (up, down, right, left by the
/// sensitivity; the first held key in that order wins).
pub open spec fn reposition_spec(m: ModelRotateReposition, keys: HeldKeys, s: int) -> ModelRotateReposition {
    if keys.key_w {
        ModelRotateReposition { y: sat64(m.y + s) as i64, ..m }
    } else if keys.key_s {
        ModelRotateReposition { y: sat64(m.y - s) as i64, ..m }
    } else if keys.key_d {
        ModelRotateReposition { x: sat64(m.x + s) as i64, ..m }
    } else if keys.key_a {
        ModelRotateReposition { x: sat64(m.x - s) as i64, ..m }
    } else {
        m
    }
}

/// Moves the model as the held keys ask and returns the turn they ask for,
/// which the renderer applies to the model's orientation.
pub fn reposition_rotate_model(
    model: &mut ModelRotateReposition,
    keys: &HeldKeys,
    settings: &OperationSettings,
) -> (r: Option<ModelRotation>)
    ensures
        r == rotation_spec(*keys, settings.model_rotate_sensitivity as int),
        *final(model) == reposition_spec(
            *old(model),
            *keys,
            settings.model_reposition_sensitivity as int,
        ),
{
    let rs = settings.model_rotate_sensitivity;
    let negative = saturate(-(rs as i128));
    let turn = if keys.arrow_up {
        Some(ModelRotation::AboutX(negative))
    } else if keys.arrow_down {
        Some(ModelRotation::AboutX(rs))
    } else if keys.arrow_right {
        Some(ModelRotation::AboutY(rs))
    } else if keys.arrow_left {
        Some(ModelRotation::AboutY(negative))
    } else {
        None
    };
    let ms = settings.model_reposition_sensitivity as i128;
    if keys.key_w {
        model.y = saturate(model.y as i128 + ms);
    } else if keys.key_s {
        model.y = saturate(model.y as i128 - ms);
    } else if keys.key_d {
        model.x = saturate(model.x as i128 + ms);
    } else if keys.key_a {
        model.x = saturate(model.x as i128 - ms);
    }
    turn
}

} // verus!
