//! The virtual camera's interface: which methods it has, and in which slots of its table.
//!
//! Three layouts of `IMFVirtualCamera` are in use, and a camera does not say which one is its own.
//! The classic one can be asked for by its identifier; where that fails, the camera has the one
//! that inherits from `IMFAttributes`, with thirty more methods in front and no `AddMediaSource`.
use vstd::prelude::*;

verus! {

/// The result code for an argument that is not accepted.
pub const E_INVALIDARG: i32 = -2147024809;

/// A table of methods.
#[derive(Clone, Copy, PartialEq, Eq, Structural, Debug)]
pub enum Layout {
    /// Media source, start, stop, remove, and nothing else.
    Plain,
    /// The classic interface.
    Classic,
    /// The interface that inherits from `IMFAttributes`.
    Attributes,
}

impl Layout {
    /// Whether a media source can be handed to the camera. Else it is made by a class factory that
    /// the camera finds by itself.
    pub open spec fn takes_source(self) -> bool {
        !(self is Attributes)
    }

    pub open spec fn slots(self) -> Slots {
        match self {
            Layout::Plain => Slots {
                add_property: None,
                add_media_source: Some(3),
                start: 4,
                remove: 6,
            },
            Layout::Classic => Slots {
                add_property: Some(4),
                add_media_source: Some(7),
                start: 8,
                remove: 10,
            },
            Layout::Attributes => Slots {
                add_property: Some(34),
                add_media_source: None,
                start: 36,
                remove: 38,
            },
        }
    }

    /// The slots of the methods that are used.
    pub fn method_slots(self) -> (r: Slots)
        ensures
            r == self.slots(),
    {
        match self {
            Layout::Plain => Slots {
                add_property: None,
                add_media_source: Some(3),
                start: 4,
                remove: 6,
            },
            Layout::Classic => Slots {
                add_property: Some(4),
                add_media_source: Some(7),
                start: 8,
                remove: 10,
            },
            Layout::Attributes => Slots {
                add_property: Some(34),
                add_media_source: None,
                start: 36,
                remove: 38,
            },
        }
    }
}

/// Slots of the methods that are used. A method that a layout lacks has none.
#[derive(Clone, Copy, PartialEq, Eq, Structural, Debug)]
pub struct Slots {
    pub add_property: Option<usize>,
    pub add_media_source: Option<usize>,
    pub start: usize,
    pub remove: usize,
}

/// Slot of `QueryInterface` in every layout.
pub const QUERY_INTERFACE_SLOT: usize = 0;

/// Slot of `Release` in every layout.
pub const RELEASE_SLOT: usize = 2;

/// Whether `QueryInterface` brought an interface: a code that is no failure, and a pointer.
pub fn query_interface(hr: i32, out_is_null: bool) -> (r: bool)
    ensures
        r == (hr >= 0 && !out_is_null),
{
    hr >= 0 && !out_is_null
}

/// What asking for the classic interface brought.
#[derive(Clone, Copy, PartialEq, Eq, Structural, Debug)]
pub enum ClassicQuery {
    /// Another pointer than the camera's own.
    Separate,
    /// The camera's own pointer.
    Same,
    /// Nothing.
    Failed,
}

/// How a camera's methods are reached.
#[derive(Clone, Copy, PartialEq, Eq, Structural, Debug)]
pub struct VirtualCamHandle {
    /// Whether methods are called through a pointer of their own, which has to be released too.
    pub classic_separate: bool,
    pub layout: Layout,
}

/// Something to be done when a camera is given up.
#[derive(Clone, Copy, PartialEq, Eq, Structural, Debug)]
pub enum DropStep {
    /// Call `Remove`.
    Remove,
    /// Release the classic interface.
    ReleaseClassic,
    /// Release the camera.
    ReleaseCamera,
}

impl VirtualCamHandle {
    /// How the methods of a camera are reached that was asked for its classic interface.
    pub fn new(classic: ClassicQuery) -> (r: VirtualCamHandle)
        ensures
            r.classic_separate == (classic is Separate),
            r.layout == if classic is Failed {
                Layout::Attributes
            } else {
                Layout::Classic
            },
    {
        match classic {
            ClassicQuery::Separate => VirtualCamHandle {
                classic_separate: true,
                layout: Layout::Classic,
            },
            ClassicQuery::Same => VirtualCamHandle {
                classic_separate: false,
                layout: Layout::Classic,
            },
            ClassicQuery::Failed => VirtualCamHandle {
                classic_separate: false,
                layout: Layout::Attributes,
            },
        }
    }

    /// Whether a media source can be handed to the camera.
    pub fn supports_add_media_source(&self) -> (r: bool)
        ensures
            r == self.layout.takes_source(),
    {
        match self.layout {
            Layout::Attributes => false,
            _ => true,
        }
    }

    pub open spec fn steps_to_drop(self, camera_is_null: bool, classic_is_null: bool) -> Seq<
        DropStep,
    > {
        if camera_is_null {
            seq![]
        } else if self.classic_separate && !classic_is_null {
            seq![DropStep::Remove, DropStep::ReleaseClassic, DropStep::ReleaseCamera]
        } else {
            seq![DropStep::Remove, DropStep::ReleaseCamera]
        }
    }

    /// What is to be done when the camera is given up: remove it first, then release each pointer
    /// once.
    pub fn drop_steps(&self, camera_is_null: bool, classic_is_null: bool) -> (r: Vec<DropStep>)
        ensures
            r@ == self.steps_to_drop(camera_is_null, classic_is_null),
    {
        let mut steps: Vec<DropStep> = Vec::new();
        if !camera_is_null {
            steps.push(DropStep::Remove);
            if self.classic_separate && !classic_is_null {
                steps.push(DropStep::ReleaseClassic);
            }
            steps.push(DropStep::ReleaseCamera);
        }
        assert(steps@ =~= self.steps_to_drop(camera_is_null, classic_is_null));
        steps
    }
}

/// `AddMediaSource` has a slot exactly where a media source can be handed over, and where the
/// camera inherits from `IMFAttributes` every slot lies behind the thirty of that interface and the
/// three that every interface has.
pub proof fn slots_match_the_layout(layout: Layout)
    ensures
        layout.slots().add_media_source is Some <==> layout.takes_source(),
        layout is Attributes ==> {
            &&& layout.slots().start >= 33
            &&& layout.slots().remove >= 33
            &&& layout.slots().add_property matches Some(slot) && slot >= 33
        },
        layout.slots().start > RELEASE_SLOT,
        layout.slots().remove > layout.slots().start,
{
}

/// What the class factory answers a caller with.
#[derive(Clone, Copy, PartialEq, Eq, Structural, Debug)]
pub enum Instance {
    /// The media source itself.
    Source,
    /// An object that makes the media source on demand.
    Activate,
}

/// What the class factory answers with, given the result of asking the media source for the
/// interface that the caller wants.
pub fn create_instance(source_query: i32) -> (r: Instance)
    ensures
        r == if source_query >= 0 {
            Instance::Source
        } else {
            Instance::Activate
        },
{
    if source_query >= 0 {
        Instance::Source
    } else {
        Instance::Activate
    }
}

/// Whether a stream of the media source has attributes: there is one stream, number zero.
pub fn stream_attributes(stream_index: u32) -> (r: Result<(), i32>)
    ensures
        stream_index == 0 ==> r == Ok::<(), i32>(()),
        stream_index != 0 ==> r == Err::<(), i32>(E_INVALIDARG),
{
    if stream_index == 0 {
        Ok(())
    } else {
        Err(E_INVALIDARG)
    }
}

/// The media source that an activation object has made.
#[derive(Clone, Copy, PartialEq, Eq, Structural, Debug)]
pub struct ActiveSource {
    pub made: bool,
}

impl ActiveSource {
    /// None yet.
    pub fn new() -> (r: ActiveSource)
        ensures
            !r.made,
    {
        ActiveSource { made: false }
    }

    /// The source is wanted; returns whether it has to be made now.
    pub fn activate_object(&mut self) -> (r: bool)
        ensures
            r == !old(self).made,
            final(self).made,
    {
        let fresh: bool = !self.made;
        self.made = true;
        fresh
    }

    /// The source is given up; the next one that is wanted is made anew.
    pub fn shutdown_object(&mut self)
        ensures
            !final(self).made,
    {
        self.made = false;
    }
}

/// A camera that is given up is removed first, the pointer of its own that methods were called
/// through is released only if there is one, and the camera itself is released last. Where there is
/// no camera, nothing is done.
pub proof fn each_pointer_is_released_once(
    handle: VirtualCamHandle,
    camera_is_null: bool,
    classic_is_null: bool,
)
    ensures
        ({
            let steps = handle.steps_to_drop(camera_is_null, classic_is_null);
            let separate = handle.classic_separate && !classic_is_null;
            &&& camera_is_null ==> steps.len() == 0
            &&& !camera_is_null ==> {
                &&& steps[0] == DropStep::Remove
                &&& steps.last() == DropStep::ReleaseCamera
                &&& separate ==> steps.len() == 3 && steps[1] == DropStep::ReleaseClassic
                &&& !separate ==> steps.len() == 2
            }
        }),
{
}

} // verus!
