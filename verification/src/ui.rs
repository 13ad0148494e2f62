//! Which debug windows the front end shows.

use vstd::prelude::*;

verus! {

#[derive(Copy, Clone, Debug, PartialEq, Eq, Structural)]
pub struct UiState {
    pub show_menu_bar: bool,
    pub show_cpu_reg_window: bool,
    pub show_cpu_dasm_window: bool,
    pub show_mem_window: bool,
    pub show_stat_window: bool,
    pub show_ppu_reg_window: bool,
    pub show_ppu_palette_window: bool,
    pub show_ppu_oam_window: bool,
    pub show_timer_window: bool,
    pub show_cart_info_window: bool,
    pub show_joypad_window: bool,
}

/// The menu bar alone.
pub open spec fn initial_ui_state() -> UiState {
    UiState {
        show_menu_bar: true,
        show_cpu_reg_window: false,
        show_cpu_dasm_window: false,
        show_mem_window: false,
        show_stat_window: false,
        show_ppu_reg_window: false,
        show_ppu_palette_window: false,
        show_ppu_oam_window: false,
        show_timer_window: false,
        show_cart_info_window: false,
        show_joypad_window: false,
    }
}

impl UiState {
    /// The menu bar shown, every window hidden.
    pub fn new() -> (s: UiState)
        ensures
            s == initial_ui_state(),
    {
        UiState {
            show_menu_bar: true,
            show_cpu_reg_window: false,
            show_cpu_dasm_window: false,
            show_mem_window: false,
            show_stat_window: false,
            show_ppu_reg_window: false,
            show_ppu_palette_window: false,
            show_ppu_oam_window: false,
            show_timer_window: false,
            show_cart_info_window: false,
            show_joypad_window: false,
        }
    }

    /// Hides every window, back to the state `new` gives.
    pub fn hide_all(&mut self)
        ensures
            *final(self) == initial_ui_state(),
    {
        *self = UiState::new();
    }
}

} // verus!
