//! Shared state of a viewing session.
use vstd::prelude::*;
use vstd::string::StringExecFns;
use crate::capture::{snapshot_location, snapshot_path};
use crate::path::{extension, file_stem, join, join_path, path_stem};
use crate::states::RenderModelForwardOrBackward;
use crate::types::SavePath;
use crate::utils::{check_skybox_file, is_skybox_extension};

verus! {

/// The rate of the oscillating driver on each axis: a sign, `1` or `-1`,
/// that flips whenever the axis reaches one of its bounds.
#[derive(Clone, Copy, Debug, PartialEq, Eq, Structural)]
pub struct LiveCameraPanNumber {
    pub yaw: i8,
    pub pitch: i8,
    pub radius: i8,
}

/// `r` is a unit sign.
pub open spec fn is_sign(r: int) -> bool {
    r == 1 || r == -1
}

impl LiveCameraPanNumber {
    /// Every rate is a unit sign.
    pub open spec fn wf(&self) -> bool {
        is_sign(self.yaw as int) && is_sign(self.pitch as int) && is_sign(self.radius as int)
    }

    /// All three axes moving in the positive direction.
    pub fn new() -> (r: LiveCameraPanNumber)
        ensures
            r == (LiveCameraPanNumber { yaw: 1, pitch: 1, radius: 1 }),
            r.wf(),
    {
        LiveCameraPanNumber { yaw: 1, pitch: 1, radius: 1 }
    }
}

/// Bounds and sensitivities of the camera drivers. Angles are microradians,
/// lengths millionths of a unit; each sensitivity is the change per unit of
/// input (per pixel of pointer motion, per line of scroll, per tick).
#[derive(Clone, Copy, Debug, PartialEq, Eq, Structural)]
pub struct OperationSettings {
    pub yaw_min_value: i64,
    pub yaw_max_value: i64,
    pub pitch_min_value: i64,
    pub pitch_max_value: i64,
    pub radius_range: i64,
    pub radius_start_position: i64,
    pub model_rotate_sensitivity: i64,
    pub model_reposition_sensitivity: i64,
    pub mouse_sensitivity: i64,
    pub zoom_sensitivity: i64,
}

/// Progress of a sequenced capture: the planned poses, how many there are,
/// and how many have been visited.
#[derive(Clone, Debug)]
pub struct LiveCaptureOperationSettings {
    pub live_capture_iteration: usize,
    pub live_capture_iteration_current_counter: usize,
    pub live_capture_coordinate_list: Vec<(i64, i64, i64)>,
}

impl LiveCaptureOperationSettings {
    /// No plan yet; `iteration` is the number of poses the next plan asks for.
    pub fn new(iteration: usize) -> (r: LiveCaptureOperationSettings)
        ensures
            r.live_capture_iteration == iteration,
            r.live_capture_iteration_current_counter == 0,
            r.live_capture_coordinate_list@ == Seq::<(i64, i64, i64)>::empty(),
    {
        LiveCaptureOperationSettings {
            live_capture_iteration: iteration,
            live_capture_iteration_current_counter: 0,
            live_capture_coordinate_list: Vec::new(),
        }
    }

    /// Starts over with `plan`: its length is the new total, nothing visited.
    pub fn restart(&mut self, plan: Vec<(i64, i64, i64)>)
        ensures
            final(self).live_capture_iteration == plan@.len(),
            final(self).live_capture_iteration_current_counter == 0,
            final(self).live_capture_coordinate_list@ == plan@,
    {
        self.live_capture_iteration = plan.len();
        self.live_capture_coordinate_list = plan;
        self.live_capture_iteration_current_counter = 0;
    }

    /// The pose at the counter, moving the counter past it; `None` once
    /// every planned pose has been handed out, the plan never being read
    /// past its end.
    pub fn next_pose(&mut self) -> (r: Option<(i64, i64, i64)>)
        ensures
            final(self).live_capture_iteration == old(self).live_capture_iteration,
            final(self).live_capture_coordinate_list@ == old(self).live_capture_coordinate_list@,
            old(self).live_capture_iteration_current_counter
                < old(self).live_capture_coordinate_list@.len() ==> {
                &&& r == Some(
                    old(self).live_capture_coordinate_list@[
                        old(self).live_capture_iteration_current_counter as int
                    ],
                )
                &&& final(self).live_capture_iteration_current_counter
                    == old(self).live_capture_iteration_current_counter + 1
            },
            old(self).live_capture_iteration_current_counter
                >= old(self).live_capture_coordinate_list@.len() ==> {
                &&& r.is_none()
                &&& final(self).live_capture_iteration_current_counter
                    == old(self).live_capture_iteration_current_counter
            },
    {
        let k = self.live_capture_iteration_current_counter;
        if k < self.live_capture_coordinate_list.len() {
            let pose = self.live_capture_coordinate_list[k];
            self.live_capture_iteration_current_counter = k + 1;
            Some(pose)
        } else {
            None
        }
    }

    /// Whether every planned pose has been visited.
    pub fn is_complete(&self) -> (r: bool)
        ensures
            r == (self.live_capture_iteration_current_counter >= self.live_capture_iteration),
    {
        self.live_capture_iteration_current_counter >= self.live_capture_iteration
    }
}

/// Handles of everything a viewing session put on screen: its window, the
/// camera, light and overlay listed with the window in `entities_list`, and
/// the model (`current_scene_entity`, loaded from `current_scene_handler`).
/// Either all of them are held or none is.
pub struct OperationWindowRelatedEntities<E, H> {
    pub window: Option<E>,
    pub current_scene_handler: Option<H>,
    pub current_scene_entity: Option<E>,
    pub entities_list: Option<Vec<E>>,
}

impl<E, H> OperationWindowRelatedEntities<E, H> {
    /// All handles are held, or none is.
    pub open spec fn wf(&self) -> bool {
        self.window.is_some() == self.current_scene_handler.is_some()
            && self.window.is_some() == self.current_scene_entity.is_some()
            && self.window.is_some() == self.entities_list.is_some()
    }

    /// Whether a session is on screen.
    pub open spec fn is_open(&self) -> bool {
        self.window.is_some()
    }

    /// Every entity of the session: those listed with the window, then the model.
    pub open spec fn members(&self) -> Seq<E> {
        match (self.entities_list, self.current_scene_entity) {
            (Some(list), Some(model)) => list@.push(model),
            _ => Seq::empty(),
        }
    }

    /// No session.
    pub fn new() -> (r: Self)
        ensures
            r.wf(),
            !r.is_open(),
            r.members() == Seq::<E>::empty(),
    {
        OperationWindowRelatedEntities {
            window: None,
            current_scene_handler: None,
            current_scene_entity: None,
            entities_list: None,
        }
    }

    /// Whether a session is on screen.
    pub fn open_now(&self) -> (r: bool)
        ensures
            r == self.is_open(),
    {
        self.window.is_some()
    }

    /// Takes every handle of the session, so that all of its entities are
    /// released together; afterwards none is held.
    pub fn close(&mut self) -> (r: Vec<E>)
        requires
            old(self).wf(),
        ensures
            final(self).wf(),
            !final(self).is_open(),
            r@ == old(self).members(),
    {
        let list = self.entities_list.take();
        let model = self.current_scene_entity.take();
        self.window = None;
        self.current_scene_handler = None;
        match (list, model) {
            (Some(mut l), Some(m)) => {
                l.push(m);
                l
            },
            _ => Vec::new(),
        }
    }

    /// Holds the handles of a new session (`window` is listed first among
    /// `window` and `others`); the entities of any session held before are
    /// returned, to be released.
    pub fn open(&mut self, window: E, others: Vec<E>, scene_handler: H, scene_entity: E) -> (r: Vec<E>)
        where
            E: Copy,
        requires
            old(self).wf(),
        ensures
            final(self).wf(),
            final(self).is_open(),
            r@ == old(self).members(),
            final(self).window == Some(window),
            final(self).current_scene_entity == Some(scene_entity),
            final(self).members() == seq![window] + others@ + seq![scene_entity],
    {
        let previous = self.close();
        let mut list: Vec<E> = Vec::new();
        list.push(window);
        let mut rest = others;
        list.append(&mut rest);
        self.window = Some(window);
        self.entities_list = Some(list);
        self.current_scene_handler = Some(scene_handler);
        self.current_scene_entity = Some(scene_entity);
        assert(self.members() =~= seq![window] + others@ + seq![scene_entity]);
        previous
    }

    /// Puts a newly loaded model in place of the one on display and returns
    /// the old model's entity, to be released; with no session open, nothing
    /// changes.
    pub fn replace_model(&mut self, scene_handler: H, scene_entity: E) -> (r: Option<E>)
        requires
            old(self).wf(),
        ensures
            final(self).wf(),
            final(self).window == old(self).window,
            final(self).entities_list == old(self).entities_list,
            old(self).is_open() ==> {
                &&& r == old(self).current_scene_entity
                &&& final(self).current_scene_entity == Some(scene_entity)
                &&& final(self).current_scene_handler == Some(scene_handler)
            },
            !old(self).is_open() ==> r.is_none() && final(self).current_scene_entity.is_none(),
    {
        if self.window.is_none() {
            return None;
        }
        self.current_scene_handler = Some(scene_handler);
        let old_entity = self.current_scene_entity.take();
        self.current_scene_entity = Some(scene_entity);
        old_entity
    }
}

/// The index after `index` in direction `dir` among `len` items: past the
/// last comes the first, before the first the last.
pub open spec fn step_index(index: int, len: int, dir: RenderModelForwardOrBackward) -> int {
    let n = match dir {
        RenderModelForwardOrBackward::Forward => index + 1,
        RenderModelForwardOrBackward::Backward => index - 1,
    };
    if n >= len {
        0
    } else if n < 0 {
        len - 1
    } else {
        n
    }
}

fn step_index_exec(index: usize, len: usize, dir: RenderModelForwardOrBackward) -> (r: usize)
    requires
        len > 0,
    ensures
        r == step_index(index as int, len as int, dir),
        r < len,
{
    match dir {
        RenderModelForwardOrBackward::Forward => {
            if index >= len - 1 {
                0
            } else {
                index + 1
            }
        },
        RenderModelForwardOrBackward::Backward => {
            if index == 0 {
                len - 1
            } else if index - 1 >= len {
                0
            } else {
                index - 1
            }
        },
    }
}

/// Which of the assets needed to open a session are in place.
#[derive(Clone, Copy, Debug, PartialEq, Eq, Structural)]
pub struct AssetCheck {
    pub models_ok: bool,
    pub skybox_ok: bool,
}

/// The loaded models (in the order they were added, without repeats), the
/// chosen skybox, and which model is on display.
#[derive(Clone, Debug)]
pub struct AssetPath {
    pub models_path: Vec<String>,
    pub skybox_path: String,
    pub current_model_path_count: usize,
}

impl AssetPath {
    /// The text of each model path.
    pub open spec fn models(&self) -> Seq<Seq<char>> {
        self.models_path@.map_values(|m: String| m@)
    }

    /// No models and no skybox.
    pub fn new() -> (r: AssetPath)
        ensures
            r.models() == Seq::<Seq<char>>::empty(),
            r.models_path@.len() == 0,
            r.skybox_path@ == Seq::<char>::empty(),
            r.current_model_path_count == 0,
    {
        let r = AssetPath {
            models_path: Vec::new(),
            skybox_path: String::new(),
            current_model_path_count: 0,
        };
        assert(r.models() =~= Seq::<Seq<char>>::empty());
        r
    }

    /// Whether at least one model is loaded, and whether the skybox path
    /// names a skybox image; a session may open only when both hold.
    pub fn validate(&self) -> (r: AssetCheck)
        ensures
            r.models_ok == (self.models_path@.len() > 0),
            r.skybox_ok == (extension(self.skybox_path@).is_some() && is_skybox_extension(
                extension(self.skybox_path@).unwrap(),
            )),
    {
        AssetCheck {
            models_ok: self.models_path.len() > 0,
            skybox_ok: check_skybox_file(self.skybox_path.as_str()),
        }
    }

    /// Whether `path` is among the loaded models.
    pub fn contains_model(&self, path: &str) -> (r: bool)
        ensures
            r == self.models().contains(path@),
    {
        let p = String::from_str(path);
        let mut i: usize = 0;
        while i < self.models_path.len()
            invariant
                i <= self.models_path@.len(),
                p@ == path@,
                forall|j: int| 0 <= j < i ==> self.models()[j] != path@,
            decreases self.models_path@.len() - i,
        {
            if self.models_path[i] == p {
                assert(self.models()[i as int] == path@);
                return true;
            }
            i = i + 1;
        }
        assert(!self.models().contains(path@)) by {
            if self.models().contains(path@) {
                let j = choose|j: int| 0 <= j < self.models().len() && self.models()[j] == path@;
                assert(self.models()[j] != path@);
            }
        }
        false
    }

    /// Forgets every model.
    pub fn clear_models(&mut self)
        ensures
            final(self).models() == Seq::<Seq<char>>::empty(),
            final(self).models_path@.len() == 0,
            final(self).current_model_path_count == 0,
            final(self).skybox_path == old(self).skybox_path,
    {
        self.models_path = Vec::new();
        self.current_model_path_count = 0;
        assert(self.models() =~= Seq::<Seq<char>>::empty());
    }

    /// Forgets the skybox.
    pub fn clear_skybox(&mut self)
        ensures
            final(self).skybox_path@ == Seq::<char>::empty(),
            final(self).models_path == old(self).models_path,
            final(self).current_model_path_count == old(self).current_model_path_count,
    {
        self.skybox_path = String::new();
    }

    /// Moves to the next or previous model, wrapping around, and returns its
    /// path; `None`, with nothing changed, while no model is loaded.
    pub fn switch_model(&mut self, dir: RenderModelForwardOrBackward) -> (r: Option<String>)
        ensures
            final(self).models_path == old(self).models_path,
            final(self).skybox_path == old(self).skybox_path,
            old(self).models_path@.len() == 0 ==> r.is_none() && *final(self) == *old(self),
            old(self).models_path@.len() > 0 ==> {
                &&& final(self).current_model_path_count == step_index(
                    old(self).current_model_path_count as int,
                    old(self).models_path@.len() as int,
                    dir,
                )
                &&& r.is_some()
                &&& r.unwrap()@ == old(self).models()[final(self).current_model_path_count as int]
            },
    {
        let len = self.models_path.len();
        if len == 0 {
            return None;
        }
        let k = step_index_exec(self.current_model_path_count, len, dir);
        self.current_model_path_count = k;
        Some(self.models_path[k].clone())
    }

    /// The path of the model on display, if there is one at the index.
    pub fn current_model(&self) -> (r: Option<String>)
        ensures
            self.current_model_path_count < self.models_path@.len() ==> r.is_some() && r.unwrap()@
                == self.models()[self.current_model_path_count as int],
            self.current_model_path_count >= self.models_path@.len() ==> r.is_none(),
    {
        if self.current_model_path_count < self.models_path.len() {
            Some(self.models_path[self.current_model_path_count].clone())
        } else {
            None
        }
    }
}

/// Where the captures of each loaded model go (one entry per model, in the
/// same order), under a base directory, and which entry is in use.
#[derive(Clone, Debug)]
pub struct SavePathList {
    pub base_dir_path: String,
    pub save_path_list: Vec<SavePath>,
    pub current_path_count: usize,
}

/// Capture directory and prefix for a model whose file stem is `stem`: a
/// directory named after the stem under `base`, and the stem itself.
pub open spec fn save_path_for(base: Seq<char>, stem: Seq<char>) -> (Seq<char>, Seq<char>) {
    (join(base, stem), stem)
}

/// The capture entries line up with the models: one entry per model, in the
/// same order, each prefixed with its model's file stem, and the entry in
/// use is the one of the model on display.
pub open spec fn paired(assets: AssetPath, saves: SavePathList) -> bool {
    &&& assets.models_path@.len() == saves.save_path_list@.len()
    &&& assets.current_model_path_count == saves.current_path_count
    &&& forall|i: int|
        0 <= i < saves.save_path_list@.len() ==> file_stem(#[trigger] assets.models()[i]) == Some(
            saves.save_path_list@[i].file_name_prefix@,
        )
}

impl SavePathList {
    /// No entries, under `base_dir_path`.
    pub fn new(base_dir_path: String) -> (r: SavePathList)
        ensures
            r.base_dir_path == base_dir_path,
            r.save_path_list@.len() == 0,
            r.current_path_count == 0,
    {
        SavePathList { base_dir_path, save_path_list: Vec::new(), current_path_count: 0 }
    }

    /// Forgets every entry.
    pub fn clear(&mut self)
        ensures
            final(self).save_path_list@.len() == 0,
            final(self).current_path_count == 0,
            final(self).base_dir_path == old(self).base_dir_path,
    {
        self.save_path_list = Vec::new();
        self.current_path_count = 0;
    }

    /// Adds the entry for a model whose file stem is `stem`.
    pub fn push_model(&mut self, stem: &str)
        ensures
            final(self).base_dir_path == old(self).base_dir_path,
            final(self).current_path_count == old(self).current_path_count,
            final(self).save_path_list@.len() == old(self).save_path_list@.len() + 1,
            final(self).save_path_list@.drop_last() == old(self).save_path_list@,
            ({
                let entry = final(self).save_path_list@.last();
                (entry.current_dir_path@, entry.file_name_prefix@)
            }) == save_path_for(old(self).base_dir_path@, stem@),
    {
        let dir = join_path(self.base_dir_path.as_str(), stem);
        self.save_path_list.push(
            SavePath { current_dir_path: dir, file_name_prefix: String::from_str(stem) },
        );
        assert(self.save_path_list@.drop_last() =~= old(self).save_path_list@);
    }

    /// Moves to the next or previous entry, wrapping around; nothing changes
    /// while there is none.
    pub fn switch_model(&mut self, dir: RenderModelForwardOrBackward)
        ensures
            final(self).save_path_list@ == old(self).save_path_list@,
            final(self).base_dir_path == old(self).base_dir_path,
            old(self).save_path_list@.len() == 0 ==> final(self).current_path_count
                == old(self).current_path_count,
            old(self).save_path_list@.len() > 0 ==> final(self).current_path_count == step_index(
                old(self).current_path_count as int,
                old(self).save_path_list@.len() as int,
                dir,
            ),
    {
        let len = self.save_path_list.len();
        if len > 0 {
            self.current_path_count = step_index_exec(self.current_path_count, len, dir);
        }
    }

    /// The capture directory of the entry in use, if there is one.
    pub fn current_dir(&self) -> (r: Option<String>)
        ensures
            self.current_path_count < self.save_path_list@.len() ==> r.is_some() && r.unwrap()@
                == self.save_path_list@[self.current_path_count as int].current_dir_path@,
            self.current_path_count >= self.save_path_list@.len() ==> r.is_none(),
    {
        if self.current_path_count < self.save_path_list.len() {
            Some(self.save_path_list[self.current_path_count].current_dir_path.clone())
        } else {
            None
        }
    }

    /// Where a capture of the pose `(yaw, pitch, radius)` of the model in use
    /// is written; `None` when no entry is in use, and no capture is due.
    pub fn snapshot_path(&self, yaw: i64, pitch: i64, radius: i64) -> (r: Option<String>)
        ensures
            self.current_path_count < self.save_path_list@.len() ==> r.is_some() && r.unwrap()@
                == snapshot_location(
                self.save_path_list@[self.current_path_count as int],
                yaw as int,
                pitch as int,
                radius as int,
            ),
            self.current_path_count >= self.save_path_list@.len() ==> r.is_none(),
    {
        if self.current_path_count < self.save_path_list.len() {
            Some(snapshot_path(&self.save_path_list[self.current_path_count], yaw, pitch, radius))
        } else {
            None
        }
    }
}

/// Empty model and capture lists, captures going under `base_dir_path`.
pub fn new_asset_lists(base_dir_path: String) -> (r: (AssetPath, SavePathList))
    ensures
        paired(r.0, r.1),
        r.0.models() == Seq::<Seq<char>>::empty(),
        r.0.skybox_path@ == Seq::<char>::empty(),
        r.1.base_dir_path == base_dir_path,
{
    (AssetPath::new(), SavePathList::new(base_dir_path))
}

/// Forgets every model together with its capture entry.
pub fn clear_model_assets(assets: &mut AssetPath, saves: &mut SavePathList)
    ensures
        paired(*final(assets), *final(saves)),
        final(assets).models() == Seq::<Seq<char>>::empty(),
        final(assets).current_model_path_count == 0,
        final(assets).skybox_path == old(assets).skybox_path,
        final(saves).save_path_list@.len() == 0,
        final(saves).current_path_count == 0,
        final(saves).base_dir_path == old(saves).base_dir_path,
{
    assets.clear_models();
    saves.clear();
}

/// Registers a dropped model file: unless it names no file or is already
/// loaded, its path is added to the models and its capture entry, named
/// after the file's stem, to `saves`. Returns whether it was added.
pub fn register_model_file(assets: &mut AssetPath, saves: &mut SavePathList, path: &str) -> (r: bool)
    ensures
        r == (file_stem(path@).is_some() && !old(assets).models().contains(path@)),
        paired(*old(assets), *old(saves)) ==> paired(*final(assets), *final(saves)),
        final(assets).skybox_path == old(assets).skybox_path,
        final(assets).current_model_path_count == old(assets).current_model_path_count,
        final(saves).base_dir_path == old(saves).base_dir_path,
        final(saves).current_path_count == old(saves).current_path_count,
        !r ==> final(assets).models() == old(assets).models(),
        !r ==> final(saves).save_path_list@ == old(saves).save_path_list@,
        r ==> final(assets).models() == old(assets).models().push(path@),
        r ==> final(saves).save_path_list@.drop_last() == old(saves).save_path_list@,
        r ==> final(saves).save_path_list@.len() == old(saves).save_path_list@.len() + 1,
        r ==> ({
            let entry = final(saves).save_path_list@.last();
            (entry.current_dir_path@, entry.file_name_prefix@)
        }) == save_path_for(old(saves).base_dir_path@, file_stem(path@).unwrap()),
{
    let stem = match path_stem(path) {
        Some(stem) => stem,
        None => return false,
    };
    if assets.contains_model(path) {
        return false;
    }
    assets.models_path.push(String::from_str(path));
    assert(assets.models() =~= old(assets).models().push(path@));
    saves.push_model(stem.as_str());
    proof {
        if paired(*old(assets), *old(saves)) {
            let n = old(saves).save_path_list@.len();
            assert forall|i: int| 0 <= i < saves.save_path_list@.len() implies file_stem(
                #[trigger] assets.models()[i],
            ) == Some(saves.save_path_list@[i].file_name_prefix@) by {
                if i < n {
                    assert(assets.models()[i] == old(assets).models()[i]);
                    assert(saves.save_path_list@[i] == old(saves).save_path_list@[i]);
                }
            }
        }
    }
    true
}

/// Where a capture of the pose `(yaw, pitch, radius)` of the model on
/// display is written: its entry's directory, named after that model's stem
/// when the lists are paired; `None` when no entry is in use.
pub fn current_snapshot_path(
    assets: &AssetPath,
    saves: &SavePathList,
    yaw: i64,
    pitch: i64,
    radius: i64,
) -> (r: Option<String>)
    ensures
        saves.current_path_count >= saves.save_path_list@.len() ==> r.is_none(),
        saves.current_path_count < saves.save_path_list@.len() ==> {
            let entry = saves.save_path_list@[saves.current_path_count as int];
            &&& r.is_some()
            &&& r.unwrap()@ == snapshot_location(entry, yaw as int, pitch as int, radius as int)
            &&& paired(*assets, *saves) ==> file_stem(
                assets.models()[assets.current_model_path_count as int],
            ) == Some(entry.file_name_prefix@)
        },
{
    saves.snapshot_path(yaw, pitch, radius)
}

} // verus!
