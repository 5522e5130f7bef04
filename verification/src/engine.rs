//! The engine: the one object that a host feeds key events.

use crate::mode::{activated, press_step, release_step, switch_step, ModeHouse};
use crate::response::{BentenResponse, Function, FunctionView, ResponseView};
use crate::text::{spec_visible, visible};
use vstd::prelude::*;
use vstd::string::*;

verus! {

/// What the engine was asked to load, and from where.
#[derive(Debug, Clone, PartialEq, Eq)]
pub struct BentenConfig {
    /// The id of the mode or method.
    pub id: String,
    /// The directory that holds the configuration documents.
    pub dir: String,
}

impl BentenConfig {
    /// A configuration for the id with its white space taken out, as an id
    /// read from a file may end in a line break.
    pub fn new(id: &str, dir: String) -> (r: BentenConfig)
        ensures
            r.id@ == spec_visible(id@),
            r.dir == dir,
    {
        BentenConfig { id: visible(id), dir }
    }
}

/// An input-method engine over one mode.
#[derive(Debug)]
pub struct BentenEngine {
    pub state: ModeHouse,
    pub cfg: BentenConfig,
}

/// The response that the engine gives in place of a function it has carried
/// out, if it gives one.
pub open spec fn function_response(f: FunctionView) -> Option<ResponseView> {
    match f {
        FunctionView::CommitThenChangeMethodTo(v, _) => Some(ResponseView::Commit(v)),
        _ => None,
    }
}

/// The house `after` is what carrying out the function makes of `before`.
pub open spec fn function_step(before: ModeHouse, f: FunctionView, after: ModeHouse) -> bool {
    match f {
        FunctionView::ChangeMethodTo(m) => switch_step(before, m, after),
        FunctionView::CommitThenChangeMethodTo(_, m) => switch_step(before, m, after),
        FunctionView::IfEmptyChangeMethodTo(_) => after == before,
    }
}

/// The house `after` and the response `r` are what the engine makes of
/// `before` on a press of the key code: the mode handles the key, and a
/// function that it answers with is carried out.
pub open spec fn engine_press(before: ModeHouse, key_code: u16, after: ModeHouse, r: ResponseView) -> bool {
    exists|mid: ModeHouse, rep: ResponseView|
        #![trigger press_step(before, key_code, mid, rep)]
        {
            &&& mid.wf()
            &&& press_step(before, key_code, mid, rep)
            &&& match rep {
                ResponseView::Function(f) => {
                    &&& function_step(mid, f, after)
                    &&& r == match function_response(f) {
                        Some(x) => x,
                        None => rep,
                    }
                },
                _ => after == mid && r == rep,
            }
        }
}

impl BentenEngine {
    /// The engine's mode is well formed.
    pub open spec fn wf(&self) -> bool {
        self.state.wf()
    }

    /// An engine over the given mode.
    pub fn new(cfg: BentenConfig, state: ModeHouse) -> (r: BentenEngine)
        ensures
            r.cfg == cfg,
            r.state == state,
    {
        BentenEngine { state, cfg }
    }

    /// The id of the active method.
    pub fn current_id(&self) -> (r: &str)
        requires
            self.wf(),
        ensures
            r@ == self.state.mode.spec_current_id(),
    {
        self.state.current_id()
    }

    /// Replaces the mode as a whole.
    pub fn set_layout(&mut self, state: ModeHouse)
        ensures
            final(self).state == state,
            final(self).cfg == old(self).cfg,
    {
        self.state = state;
    }

    /// Carries out a function: a change of method makes the named method the
    /// active one where it exists and changes nothing where it does not; a
    /// commit with a change of method also answers with the text to commit.
    pub fn exec_function(&mut self, function: &Function) -> (r: Option<BentenResponse>)
        requires
            old(self).wf(),
        ensures
            final(self).wf(),
            final(self).cfg == old(self).cfg,
            function_step(old(self).state, function@, final(self).state),
            match r {
                Some(x) => function_response(function@) == Some(x@),
                None => function_response(function@) is None,
            },
    {
        match function {
            Function::ChangeMethodTo(m) => {
                let _ = self.state.switch_to(m.as_str());
                None
            },
            Function::CommitThenChangeMethodTo(v, m) => {
                let _ = self.state.switch_to(m.as_str());
                Some(BentenResponse::Commit(v.clone()))
            },
            Function::IfEmptyChangeMethodTo(_) => None,
        }
    }

    /// Handles a key press: the mode handles the key, and where it answers
    /// with a function the engine carries it out before it answers the host.
    pub fn on_key_press(&mut self, key_code: u16) -> (r: BentenResponse)
        requires
            old(self).wf(),
        ensures
            final(self).wf(),
            final(self).cfg == old(self).cfg,
            engine_press(old(self).state, key_code, final(self).state, r@),
    {
        let rep = self.state.on_key_press(key_code);
        let ghost mid = self.state;
        match &rep {
            BentenResponse::Function(function) => {
                match self.exec_function(function) {
                    Some(response) => {
                        assert(press_step(old(self).state, key_code, mid, rep@));
                        response
                    },
                    None => {
                        assert(press_step(old(self).state, key_code, mid, rep@));
                        rep
                    },
                }
            },
            _ => {
                assert(press_step(old(self).state, key_code, mid, rep@));
                rep
            },
        }
    }

    /// Handles a key release: the mode handles it.
    pub fn on_key_release(&mut self, key_code: u16) -> (r: BentenResponse)
        requires
            old(self).wf(),
        ensures
            final(self).wf(),
            final(self).cfg == old(self).cfg,
            release_step(old(self).state, key_code, final(self).state),
            r@ == ResponseView::Undefined,
    {
        self.state.on_key_release(key_code)
    }

    /// Brings the active method back to the state it was made in.
    pub fn reset(&mut self)
        requires
            old(self).wf(),
        ensures
            final(self).wf(),
            final(self).cfg == old(self).cfg,
            activated(
                old(self).state,
                old(self).state.mode.current_method as int,
                final(self).state,
            ),
    {
        self.state.reset();
    }
}

} // verus!
