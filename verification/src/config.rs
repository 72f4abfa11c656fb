//! The configuration: the margin and the key bindings, in the order that
//! gives each binding its index.

use crate::keys::{BindError, Hotkey, KeyBind};
use crate::label::{label, spec_label};
use vstd::prelude::*;

verus! {

/// The margin, in pixels, kept free on every side of a monitor's work area,
/// and the key bindings.
#[derive(Clone, Debug)]
pub struct Config {
    pub margin: u8,
    pub keybinds: Vec<KeyBind>,
}

/// What to ask of the operating system for one binding: an identifier under
/// `label`, and under that identifier the hotkey.
#[derive(Clone, Debug)]
pub struct HotkeyRequest {
    pub label: String,
    pub hotkey: Hotkey,
}

impl Default for Config {
    /// No margin and no bindings.
    fn default() -> (r: Self)
        ensures
            r.margin == 0,
            r.keybinds@.len() == 0,
    {
        Config { margin: 0, keybinds: Vec::new() }
    }
}

impl Config {
    /// Whether `request` is what is to be asked for the binding at `index`.
    pub open spec fn requested(self, index: int, request: Result<HotkeyRequest, BindError>) -> bool
        recommends
            0 <= index < self.keybinds@.len(),
    {
        match request {
            Ok(req) => self.keybinds@[index].spec_hotkey() == Ok::<Hotkey, BindError>(req.hotkey)
                && req.label@ == spec_label(index as nat),
            Err(e) => self.keybinds@[index].spec_hotkey() == Err::<Hotkey, BindError>(e),
        }
    }

    /// For every binding, at its index: what to ask of the operating system,
    /// or why the binding is passed over.
    pub fn requests(&self) -> (r: Vec<Result<HotkeyRequest, BindError>>)
        ensures
            r@.len() == self.keybinds@.len(),
            forall|i: int| 0 <= i < r@.len() ==> self.requested(i, #[trigger] r@[i]),
    {
        let n = self.keybinds.len();
        let mut out: Vec<Result<HotkeyRequest, BindError>> = Vec::with_capacity(n);
        let mut index: usize = 0;
        while index < n
            invariant
                index <= n,
                n == self.keybinds@.len(),
                out@.len() == index,
                forall|i: int| 0 <= i < index ==> self.requested(i, #[trigger] out@[i]),
            decreases n - index,
        {
            let request = match self.keybinds[index].hotkey() {
                Ok(hotkey) => Ok(HotkeyRequest { label: label(index), hotkey }),
                Err(e) => Err(e),
            };
            out.push(request);
            index += 1;
        }
        out
    }
}

} // verus!
