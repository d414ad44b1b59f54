use emulator::machine::emulator::MachineState;
use emulator::menu::{
    backward_indices, forward_indices, main_menu_choice, memory_steps, memory_submenu_choice,
    state_after_menu, state_after_pulse, state_after_submenu, submenu_command, EmulatorState,
    MemorySubmenuOptions, MenuOptions, SubmenuCommand,
};
use emulator::text::{char_is_whitespace, is_blank};

#[test]
fn main_menu_letters_and_addresses() {
    assert_eq!(main_menu_choice("q", false), MenuOptions::Quit);
    assert_eq!(main_menu_choice("Q", false), MenuOptions::Quit);
    assert_eq!(main_menu_choice("c", true), MenuOptions::Continue);
    assert_eq!(main_menu_choice("C", false), MenuOptions::Continue);
    assert_eq!(main_menu_choice("m", true), MenuOptions::ViewMicrocode);
    assert_eq!(main_menu_choice("M", true), MenuOptions::ViewMicrocode);
    assert_eq!(main_menu_choice("m", false), MenuOptions::ViewMemory(0));
    assert_eq!(main_menu_choice("4095", false), MenuOptions::ViewMemory(4095));
    assert_eq!(main_menu_choice("qq", false), MenuOptions::ViewMemory(0));
    assert_eq!(main_menu_choice("", false), MenuOptions::ViewMemory(0));
}

#[test]
fn submenu_commands() {
    assert_eq!(submenu_command(""), SubmenuCommand::Continue);
    assert_eq!(submenu_command("q"), SubmenuCommand::Quit);
    assert_eq!(submenu_command("F"), SubmenuCommand::Forward);
    assert_eq!(submenu_command("b"), SubmenuCommand::Backward);
    assert_eq!(submenu_command("x"), SubmenuCommand::Unknown);
    assert_eq!(memory_steps("3"), Some(3));
    assert_eq!(memory_steps("three"), None);
}

#[test]
fn dump_ranges() {
    assert_eq!(forward_indices(10, 3), vec![11, 12, 13]);
    assert_eq!(forward_indices(10, 0), Vec::<usize>::new());
    assert_eq!(forward_indices(usize::MAX, 0), vec![usize::MAX]);
    assert_eq!(backward_indices(10, 3), vec![9, 8, 7]);
    assert_eq!(backward_indices(2, 5), vec![1, 0]);
    assert_eq!(backward_indices(0, 5), Vec::<usize>::new());
}

#[test]
fn submenu_choices_and_states() {
    assert_eq!(
        memory_submenu_choice(4, SubmenuCommand::Forward, Some(2)),
        Some(MemorySubmenuOptions::Forward { indices: vec![5, 6] })
    );
    assert_eq!(
        memory_submenu_choice(4, SubmenuCommand::Backward, Some(2)),
        Some(MemorySubmenuOptions::Backward { indices: vec![3, 2] })
    );
    assert_eq!(memory_submenu_choice(4, SubmenuCommand::Forward, None), None);
    assert_eq!(memory_submenu_choice(4, SubmenuCommand::Unknown, Some(1)), None);
    assert_eq!(
        memory_submenu_choice(4, SubmenuCommand::Quit, None),
        Some(MemorySubmenuOptions::Quit)
    );
    assert_eq!(state_after_menu(MenuOptions::ViewMemory(3)), EmulatorState::MemoryMenu(3));
    assert_eq!(state_after_menu(MenuOptions::Continue), EmulatorState::ShowPC);
    assert_eq!(
        state_after_submenu(Some(MemorySubmenuOptions::Backward { indices: vec![1] })),
        EmulatorState::DisplayMemory(vec![1])
    );
    assert_eq!(state_after_submenu(None), EmulatorState::Menu);
    assert_eq!(state_after_submenu(Some(MemorySubmenuOptions::Quit)), EmulatorState::Quit);
    assert_eq!(state_after_pulse(MachineState::Halted), EmulatorState::Stats);
    assert_eq!(state_after_pulse(MachineState::Running), EmulatorState::Processing);
}

#[test]
fn blank_lines() {
    assert!(is_blank(""));
    assert!(is_blank(" \t\r\n"));
    assert!(is_blank("\u{3000}\u{a0}"));
    assert!(!is_blank(" 0 "));
    assert!(char_is_whitespace('\u{2028}'));
    assert!(!char_is_whitespace('\u{200b}'));
    for c in ['a', ' ', '\u{85}', '\u{180e}', '\u{feff}', '\u{2009}'] {
        assert_eq!(char_is_whitespace(c), c.is_whitespace(), "{c:?}");
    }
}
