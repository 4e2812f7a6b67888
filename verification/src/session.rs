//! The host/cartridge session protocol. The host resolves, by fixed
//! symbolic name, the cartridge's mutable function-pointer slots, writes its
//! own entry points into them, and transfers control to the cartridge's
//! entry point; a missing symbol is fatal and there is no partial-binding
//! recovery. A session is created at most once per host; a second attempt
//! fails deterministically. The frame loop then runs
//! Uninitialized -> Running -> Stopped, with the host's quit event taking
//! priority over the cartridge's continuation signal, and Stopped terminal.
//!
//! Loading the cartridge module and writing the pointers is the platform's
//! job; the decisions — which symbols are required, when binding is
//! complete, whether a session may start, when the loop stops — live here.

use vstd::prelude::*;
use crate::image::Image;
use crate::input::{GamepadInput, InputState, Player};
use crate::palette::Palette;
use crate::resources::ResourceTables;
use crate::scene::Scene;
use crate::{MAX_IMAGES, MAX_PALETTES};

verus! {

/// One of the mutable function-pointer slots the host must resolve inside
/// the cartridge, plus the cartridge's own entry point.
#[derive(Copy, Clone, PartialEq, Eq, Structural, Debug)]
pub enum HostSlot {
    /// `INIT`: creates the session and returns its handle.
    Init,
    /// `DROP`: releases the session handle.
    Deinit,
    /// `UPDATE`: runs one frame; false means quit.
    Update,
    /// `GET_TIME`: milliseconds since session start.
    GetTime,
    /// `GET_INPUT`: one logical input of one player.
    GetInput,
    /// `MAIN`: the cartridge's entry point; control stays inside it.
    Main,
}

/// A fatal setup error: none of these is recoverable by design, since each
/// indicates a broken build or invalid input.
#[derive(Copy, Clone, PartialEq, Eq, Structural, Debug)]
pub enum FatalError {
    /// A second session was requested in the same host.
    AlreadyInitialized,
    /// A binding symbol could not be resolved in the cartridge.
    MissingSymbol(HostSlot),
}

/// The symbolic name under which a slot is resolved.
pub fn symbol_name(slot: HostSlot) -> (name: &'static str)
    ensures
        slot == HostSlot::Init ==> name@ == "AVK_INIT"@,
        slot == HostSlot::Deinit ==> name@ == "AVK_DROP"@,
        slot == HostSlot::Update ==> name@ == "AVK_UPDATE"@,
        slot == HostSlot::GetTime ==> name@ == "AVK_GET_TIME"@,
        slot == HostSlot::GetInput ==> name@ == "AVK_GET_INPUT"@,
        slot == HostSlot::Main ==> name@ == "avk_main"@,
{
    match slot {
        HostSlot::Init => "AVK_INIT",
        HostSlot::Deinit => "AVK_DROP",
        HostSlot::Update => "AVK_UPDATE",
        HostSlot::GetTime => "AVK_GET_TIME",
        HostSlot::GetInput => "AVK_GET_INPUT",
        HostSlot::Main => "avk_main",
    }
}

/// Tracks which binding symbols have been resolved. The platform layer
/// marks each slot as it finds the symbol; the session may only start once
/// every slot is resolved.
pub struct BindingTable {
    pub init: bool,
    pub deinit: bool,
    pub update: bool,
    pub get_time: bool,
    pub get_input: bool,
    pub main: bool,
}

impl BindingTable {
    /// Whether a slot has been resolved.
    pub open spec fn resolved(self, s: HostSlot) -> bool {
        match s {
            HostSlot::Init => self.init,
            HostSlot::Deinit => self.deinit,
            HostSlot::Update => self.update,
            HostSlot::GetTime => self.get_time,
            HostSlot::GetInput => self.get_input,
            HostSlot::Main => self.main,
        }
    }

    /// A table with nothing resolved yet.
    pub fn new() -> (t: BindingTable)
        ensures
            forall|s: HostSlot| !t.resolved(s),
    {
        BindingTable {
            init: false,
            deinit: false,
            update: false,
            get_time: false,
            get_input: false,
            main: false,
        }
    }

    /// Records that one symbol was resolved, leaving the others as they
    /// were.
    pub fn mark_resolved(&mut self, s: HostSlot)
        ensures
            final(self).resolved(s),
            forall|t: HostSlot|
                #[trigger] final(self).resolved(t) == (t == s || old(self).resolved(t)),
    {
        match s {
            HostSlot::Init => self.init = true,
            HostSlot::Deinit => self.deinit = true,
            HostSlot::Update => self.update = true,
            HostSlot::GetTime => self.get_time = true,
            HostSlot::GetInput => self.get_input = true,
            HostSlot::Main => self.main = true,
        }
    }

    /// Whether every binding symbol has been resolved.
    pub fn is_complete(&self) -> (c: bool)
        ensures
            c <==> forall|s: HostSlot| self.resolved(s),
    {
        let c = self.init && self.deinit && self.update && self.get_time && self.get_input
            && self.main;
        proof {
            if c {
                assert forall|s: HostSlot| self.resolved(s) by {
                    match s {
                        HostSlot::Init => assert(self.resolved(s)),
                        HostSlot::Deinit => assert(self.resolved(s)),
                        HostSlot::Update => assert(self.resolved(s)),
                        HostSlot::GetTime => assert(self.resolved(s)),
                        HostSlot::GetInput => assert(self.resolved(s)),
                        HostSlot::Main => assert(self.resolved(s)),
                    }
                }
            } else {
                if !self.init {
                    assert(!self.resolved(HostSlot::Init));
                } else if !self.deinit {
                    assert(!self.resolved(HostSlot::Deinit));
                } else if !self.update {
                    assert(!self.resolved(HostSlot::Update));
                } else if !self.get_time {
                    assert(!self.resolved(HostSlot::GetTime));
                } else if !self.get_input {
                    assert(!self.resolved(HostSlot::GetInput));
                } else {
                    assert(!self.resolved(HostSlot::Main));
                }
            }
        }
        c
    }

    /// Checks the binding: complete, or the fatal error naming an
    /// unresolved symbol. Resolution failure is fatal — there is no
    /// partial-binding recovery.
    pub fn check_complete(&self) -> (r: Result<(), FatalError>)
        ensures
            r is Ok <==> forall|s: HostSlot| self.resolved(s),
            r is Err ==> exists|s: HostSlot|
                r->Err_0 == FatalError::MissingSymbol(s) && !self.resolved(s),
    {
        if !self.init {
            proof {
                assert(!self.resolved(HostSlot::Init));
            }
            return Err(FatalError::MissingSymbol(HostSlot::Init));
        }
        if !self.deinit {
            proof {
                assert(!self.resolved(HostSlot::Deinit));
            }
            return Err(FatalError::MissingSymbol(HostSlot::Deinit));
        }
        if !self.update {
            proof {
                assert(!self.resolved(HostSlot::Update));
            }
            return Err(FatalError::MissingSymbol(HostSlot::Update));
        }
        if !self.get_time {
            proof {
                assert(!self.resolved(HostSlot::GetTime));
            }
            return Err(FatalError::MissingSymbol(HostSlot::GetTime));
        }
        if !self.get_input {
            proof {
                assert(!self.resolved(HostSlot::GetInput));
            }
            return Err(FatalError::MissingSymbol(HostSlot::GetInput));
        }
        if !self.main {
            proof {
                assert(!self.resolved(HostSlot::Main));
            }
            return Err(FatalError::MissingSymbol(HostSlot::Main));
        }
        proof {
            assert forall|s: HostSlot| self.resolved(s) by {
                match s {
                    HostSlot::Init => assert(self.resolved(s)),
                    HostSlot::Deinit => assert(self.resolved(s)),
                    HostSlot::Update => assert(self.resolved(s)),
                    HostSlot::GetTime => assert(self.resolved(s)),
                    HostSlot::GetInput => assert(self.resolved(s)),
                    HostSlot::Main => assert(self.resolved(s)),
                }
            }
        }
        Ok(())
    }
}

/// Where the session driver stands: created, looping, or done for good.
#[derive(Copy, Clone, PartialEq, Eq, Structural, Debug)]
pub enum Phase {
    Uninitialized,
    Running,
    Stopped,
}

/// The driver's transition for one frame: while running, the host's quit
/// event or the cartridge's refusal to continue stops the loop — the host's
/// quit taking priority — and Stopped is terminal, with no resume.
pub open spec fn spec_next_phase(p: Phase, host_quit: bool, cart_continue: bool) -> Phase {
    match p {
        Phase::Running => if host_quit || !cart_continue {
            Phase::Stopped
        } else {
            Phase::Running
        },
        _ => p,
    }
}

/// One running (or stopped) console session: the loaded resource tables,
/// the shared scene state, the per-player input state, and the driver
/// phase.
pub struct Session {
    pub resources: ResourceTables,
    pub scene: Scene,
    pub input: InputState,
    pub phase: Phase,
}

impl Session {
    /// The loaded tables keep their fixed shape for the session's life.
    pub open spec fn wf(self) -> bool {
        self.resources.wf()
    }

    /// Runs the driver's per-frame transition and reports whether the loop
    /// goes on. Scene, resources and input are untouched: the cartridge
    /// mutates the scene through its own hook, never the driver.
    pub fn frame(&mut self, host_quit: bool, cart_continue: bool) -> (running: bool)
        ensures
            final(self).phase == spec_next_phase(old(self).phase, host_quit, cart_continue),
            running <==> final(self).phase == Phase::Running,
            final(self).resources == old(self).resources,
            final(self).scene == old(self).scene,
            final(self).input == old(self).input,
    {
        let next = match self.phase {
            Phase::Running => {
                if host_quit || !cart_continue {
                    Phase::Stopped
                } else {
                    Phase::Running
                }
            },
            Phase::Uninitialized => Phase::Uninitialized,
            Phase::Stopped => Phase::Stopped,
        };
        self.phase = next;
        matches!(self.phase, Phase::Running)
    }

    /// One logical input of one player, sources OR-combined: the `GET_INPUT`
    /// entry the cartridge calls back into.
    pub fn get_input(&self, player: Player, input: GamepadInput) -> (down: bool)
        ensures
            down == (self.input.keyboard@[crate::input::spec_cell(player, input)]
                || self.input.gamepad@[crate::input::spec_cell(player, input)]),
    {
        self.input.get_input(player, input)
    }

    /// Composites the current scene against the session's resource tables:
    /// the read phase of the frame, after the cartridge's writes are done.
    pub fn render_frame(&self, clear: u16) -> (frame: Vec<u16>)
        requires
            self.wf(),
        ensures
            frame@.len() == crate::RESOLUTION_SIZE,
            forall|x: int, y: int|
                0 <= x < crate::RESOLUTION_WIDTH && 0 <= y < crate::RESOLUTION_HEIGHT
                    ==> frame@[y * crate::RESOLUTION_WIDTH + x]
                    == crate::compositor::spec_frame_color(self.resources, self.scene, clear, x, y),
    {
        crate::compositor::render(&self.resources, &self.scene, clear)
    }
}

/// The host side of the binding: owns the one-session-per-process rule.
/// The flag only ever goes from unset to set — no method clears it — so a
/// session can be created at most once per host.
pub struct Host {
    pub session_started: bool,
}

impl Host {
    /// A fresh host that has started no session.
    pub fn new() -> (h: Host)
        ensures
            !h.session_started,
    {
        Host { session_started: false }
    }

    /// The `INIT` entry: creates the one session from the fixed-capacity
    /// resource arrays, with a zeroed scene, all inputs released, and the
    /// driver running. A second call on the same host fails
    /// deterministically with `AlreadyInitialized` and changes nothing — it
    /// never silently reinitializes.
    pub fn init(&mut self, images: Vec<Image>, palettes: Vec<Palette>) -> (r: Result<
        Session,
        FatalError,
    >)
        requires
            images@.len() == MAX_IMAGES,
            palettes@.len() == MAX_PALETTES,
            forall|i: int| 0 <= i < MAX_IMAGES ==> (#[trigger] images@[i]).wf(),
        ensures
            r is Ok <==> !old(self).session_started,
            final(self).session_started,
            r is Err ==> r->Err_0 == FatalError::AlreadyInitialized && *final(self) == *old(self),
            r is Ok ==> ({
                let s = r->Ok_0;
                &&& s.wf()
                &&& s.resources.spec_images() == images@
                &&& s.resources.spec_palettes() == palettes@
                &&& s.phase == Phase::Running
                &&& forall|i: int|
                    0 <= i < crate::MAX_SPRITES ==> (#[trigger] s.scene.foreground@[i]).image_id
                        == 0 && s.scene.foreground@[i].palette_transform == 0
                        && s.scene.foreground@[i].x == 0 && s.scene.foreground@[i].y == 0
                &&& forall|i: int|
                    0 <= i < crate::BACKGROUND_CANVAS_SIZE ==> (
                    #[trigger] s.scene.background@[i]).image_id == 0
                        && s.scene.background@[i].palette_id == 0
                &&& forall|c: int|
                    0 <= c < crate::input::INPUT_CELLS ==> !s.input.keyboard@[c]
                        && !s.input.gamepad@[c]
            }),
    {
        if self.session_started {
            return Err(FatalError::AlreadyInitialized);
        }
        self.session_started = true;
        Ok(
            Session {
                resources: ResourceTables::load(images, palettes),
                scene: Scene::new(),
                input: InputState::new(),
                phase: Phase::Running,
            },
        )
    }
}

} // verus!
