//! The synchronisation outputs of a Hikvision camera, which drive its projectors.

use vstd::prelude::*;

verus! {

#[derive(Debug, Clone, Copy, PartialEq, Eq, Structural)]
pub enum DefaultStatus {
    High,
    Low,
}

#[derive(Debug, Clone, Copy, PartialEq, Eq, Structural)]
pub enum OutputStatus {
    High,
    Low,
    Pulse,
}

/// The outputs of a camera, in the order in which the device lists them.
#[derive(Debug)]
pub struct SyncSignalOutputList {
    pub sync_signal_output_list: Vec<SyncSignalOutput>,
}

/// One output line and how it is driven.
#[derive(Debug, Clone, Copy, PartialEq, Eq, Structural)]
pub struct SyncSignalOutput {
    pub id: u8,
    pub output_status: OutputStatus,
    pub video_flash_enable: bool,
    pub detect_brightness_enable: bool,
}

/// The number of output lines of a camera.
pub const OUTPUT_LINES: u8 = 7;

impl SyncSignalOutput {
    /// Line `id` driven so that its projector lights.
    pub open spec fn spec_set(id: u8) -> SyncSignalOutput {
        SyncSignalOutput {
            id,
            output_status: OutputStatus::Pulse,
            video_flash_enable: false,
            detect_brightness_enable: false,
        }
    }

    /// Line `id` driven so that its projector is dark.
    pub open spec fn spec_unset(id: u8) -> SyncSignalOutput {
        SyncSignalOutput {
            id,
            output_status: OutputStatus::High,
            video_flash_enable: true,
            detect_brightness_enable: true,
        }
    }

    /// Line `id`, lit or dark.
    pub open spec fn spec_driven(id: u8, lit: bool) -> SyncSignalOutput {
        if lit {
            Self::spec_set(id)
        } else {
            Self::spec_unset(id)
        }
    }

    pub open spec fn spec_is_set(&self) -> bool {
        self.output_status == OutputStatus::Pulse && !self.video_flash_enable
            && !self.detect_brightness_enable
    }

    pub fn set(id: u8) -> (line: Self)
        ensures
            line == Self::spec_set(id),
    {
        Self {
            id,
            output_status: OutputStatus::Pulse,
            video_flash_enable: false,
            detect_brightness_enable: false,
        }
    }

    pub fn unset(id: u8) -> (line: Self)
        ensures
            line == Self::spec_unset(id),
    {
        Self {
            id,
            output_status: OutputStatus::High,
            video_flash_enable: true,
            detect_brightness_enable: true,
        }
    }

    /// Whether the line is driven exactly as `set` drives it.
    #[verifier::when_used_as_spec(spec_is_set)]
    pub fn is_set(&self) -> (lit: bool)
        ensures
            lit == self.spec_is_set(),
    {
        self.output_status == OutputStatus::Pulse && self.video_flash_enable == false
            && self.detect_brightness_enable == false
    }

    pub fn is_unset(&self) -> (dark: bool)
        ensures
            dark == !self.spec_is_set(),
    {
        !self.is_set()
    }
}

/// A line that `set` made is set, one that `unset` made is not, and either
/// keeps its number.
pub proof fn lemma_set_unset_distinct(id: u8)
    ensures
        SyncSignalOutput::spec_set(id).spec_is_set(),
        !SyncSignalOutput::spec_unset(id).spec_is_set(),
        SyncSignalOutput::spec_set(id).id == id,
        SyncSignalOutput::spec_unset(id).id == id,
{
}

impl SyncSignalOutputList {
    /// The lines `lines`, in their order, all lit or all dark.
    pub open spec fn spec_some(lines: Seq<u8>, lit: bool) -> Seq<SyncSignalOutput> {
        Seq::new(lines.len(), |i: int| SyncSignalOutput::spec_driven(lines[i], lit))
    }

    /// The numbers of all lines of a camera: 1 to 7.
    pub open spec fn all_lines() -> Seq<u8> {
        Seq::new(OUTPUT_LINES as nat, |i: int| (i + 1) as u8)
    }

    /// The outputs that the list holds.
    pub open spec fn outputs(&self) -> Seq<SyncSignalOutput> {
        self.sync_signal_output_list@
    }

    fn every_line(lit: bool) -> (list: Self)
        ensures
            list.outputs() == Self::spec_some(Self::all_lines(), lit),
    {
        let mut outputs: Vec<SyncSignalOutput> = Vec::new();
        let mut id: u8 = 1;
        while id <= OUTPUT_LINES
            invariant
                1 <= id <= OUTPUT_LINES + 1,
                outputs.len() == id - 1,
                forall|i: int|
                    0 <= i < outputs.len() ==> outputs@[i] == SyncSignalOutput::spec_driven(
                        (i + 1) as u8,
                        lit,
                    ),
            decreases OUTPUT_LINES + 1 - id,
        {
            outputs.push(
                if lit {
                    SyncSignalOutput::set(id)
                } else {
                    SyncSignalOutput::unset(id)
                },
            );
            id += 1;
        }
        assert(outputs@ =~= Self::spec_some(Self::all_lines(), lit));
        Self { sync_signal_output_list: outputs }
    }

    fn some_lines(lines: Vec<u8>, lit: bool) -> (list: Self)
        ensures
            list.outputs() == Self::spec_some(lines@, lit),
    {
        let mut outputs: Vec<SyncSignalOutput> = Vec::new();
        let mut at: usize = 0;
        while at < lines.len()
            invariant
                at <= lines.len(),
                outputs.len() == at,
                forall|i: int|
                    0 <= i < at ==> outputs@[i] == SyncSignalOutput::spec_driven(lines@[i], lit),
            decreases lines.len() - at,
        {
            outputs.push(
                if lit {
                    SyncSignalOutput::set(lines[at])
                } else {
                    SyncSignalOutput::unset(lines[at])
                },
            );
            at += 1;
        }
        assert(outputs@ =~= Self::spec_some(lines@, lit));
        Self { sync_signal_output_list: outputs }
    }

    /// Lines 1 to 7, all dark.
    pub fn unset_all() -> (list: Self)
        ensures
            list.outputs() == Self::spec_some(Self::all_lines(), false),
    {
        Self::every_line(false)
    }

    /// Lines 1 to 7, all lit.
    pub fn set_all() -> (list: Self)
        ensures
            list.outputs() == Self::spec_some(Self::all_lines(), true),
    {
        Self::every_line(true)
    }

    /// The lines `lines`, in their order, all lit.
    pub fn set_some(lines: Vec<u8>) -> (list: Self)
        ensures
            list.outputs() == Self::spec_some(lines@, true),
    {
        Self::some_lines(lines, true)
    }

    /// The lines `lines`, in their order, all dark.
    pub fn unset_some(lines: Vec<u8>) -> (list: Self)
        ensures
            list.outputs() == Self::spec_some(lines@, false),
    {
        Self::some_lines(lines, false)
    }

    /// Lines 1 to 7, all lit where `enabled` and all dark where not.
    pub fn for_state(enabled: bool) -> (list: Self)
        ensures
            list.outputs() == Self::spec_some(Self::all_lines(), enabled),
    {
        if enabled {
            Self::set_all()
        } else {
            Self::unset_all()
        }
    }
}

} // verus!
