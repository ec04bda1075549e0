use oobe_wizard::AccountInfo;
use oobe_wizard::ButtonKind;
use oobe_wizard::ButtonStates;
use oobe_wizard::CheckboxState;
use oobe_wizard::EntryField;
use oobe_wizard::OobeString;
use oobe_wizard::OptionalProgram;
use oobe_wizard::OptionalPrograms;
use oobe_wizard::Page;
use oobe_wizard::WizardState;
use oobe_wizard::content::button_kind;
use oobe_wizard::content::field_hint;
use oobe_wizard::content::field_name;
use oobe_wizard::content::heading_text;
use oobe_wizard::content::password_warning;
use oobe_wizard::content::program_description;
use oobe_wizard::content::program_name;
use oobe_wizard::content::program_order;

#[test]
fn page_sequence_is_the_fixed_prefix() {
    let mut page = Page::default();
    let mut visited = vec![page];
    loop {
        let finished = page.advance();
        if finished {
            break;
        }
        visited.push(page);
    }
    assert_eq!(
        visited,
        vec![
            Page::Start,
            Page::Firefox,
            Page::Gmail,
            Page::Optionals,
            Page::Account,
        ]
    );
}

#[test]
fn fifth_advance_reports_finished() {
    let mut page = Page::default();
    for _ in 0..4 {
        assert!(!page.advance());
    }
    assert_eq!(page, Page::Account);
    assert!(page.advance());
    assert_eq!(page, Page::Account);
}

#[test]
fn advance_never_goes_backward() {
    let order = [
        Page::Start,
        Page::Firefox,
        Page::Gmail,
        Page::Optionals,
        Page::Account,
    ];
    let index = |p: Page| order.iter().position(|&q| q == p).unwrap();
    for &start in &order {
        let mut page = start;
        page.advance();
        assert!(index(page) >= index(start));
    }
}

#[test]
fn toggles_are_independent() {
    let all = [
        OptionalProgram::Zoom,
        OptionalProgram::Vlc,
        OptionalProgram::LoWriter,
        OptionalProgram::LoCalc,
        OptionalProgram::LoImpress,
    ];
    for &toggled in &all {
        let mut programs = OptionalPrograms::default();
        let before: Vec<bool> = all.iter().map(|&p| programs.is_checked(p)).collect();
        programs.toggle(toggled);
        for (i, &p) in all.iter().enumerate() {
            if p == toggled {
                assert_eq!(programs.is_checked(p), !before[i]);
            } else {
                assert_eq!(programs.is_checked(p), before[i]);
            }
        }
    }
}

#[test]
fn toggle_twice_restores_the_selection() {
    let mut programs = OptionalPrograms::default();
    programs.toggle(OptionalProgram::LoImpress);
    assert!(programs.is_checked(OptionalProgram::LoImpress));
    programs.toggle(OptionalProgram::LoImpress);
    assert!(!programs.is_checked(OptionalProgram::LoImpress));
}

#[test]
fn default_selection_preselects_the_first_three() {
    let programs = OptionalPrograms::default();
    assert!(programs.is_checked(OptionalProgram::Zoom));
    assert!(programs.is_checked(OptionalProgram::Vlc));
    assert!(programs.is_checked(OptionalProgram::LoWriter));
    assert!(!programs.is_checked(OptionalProgram::LoCalc));
    assert!(!programs.is_checked(OptionalProgram::LoImpress));
}

#[test]
fn checkbox_constructor_sets_the_mark_only() {
    let on = CheckboxState::checked(true);
    assert!(on.checked);
    assert!(!on.hovered);
    let off = CheckboxState::checked(false);
    assert!(!off.checked);
    assert!(!off.hovered);
}

#[test]
fn checkbox_hover_is_kept_apart_from_the_mark() {
    let mut programs = OptionalPrograms::default();
    programs.set_hovered(OptionalProgram::Vlc, true);
    assert!(programs.vlc.hovered);
    assert!(programs.is_checked(OptionalProgram::Vlc));
    assert!(!programs.zoom.hovered);
    programs.toggle(OptionalProgram::Vlc);
    assert!(programs.vlc.hovered);
    assert!(!programs.is_checked(OptionalProgram::Vlc));
}

#[test]
fn field_edits_are_stored_verbatim() {
    let mut info = AccountInfo::default();
    info.set_field(EntryField::Fullname, String::from("Willem Dafoe"));
    info.set_field(EntryField::Username, String::from("willdafoe"));
    info.set_field(EntryField::Password, String::from("  sp aces \t and \n stuff "));
    assert_eq!(info.field_text(EntryField::Fullname).as_str(), "Willem Dafoe");
    assert_eq!(info.field_text(EntryField::Username).as_str(), "willdafoe");
    assert_eq!(
        info.field_text(EntryField::Password).as_str(),
        "  sp aces \t and \n stuff "
    );
    assert_eq!(info.field_text(EntryField::ConfirmPassword).as_str(), "");
}

#[test]
fn field_edit_overwrites_only_its_own_field() {
    let mut info = AccountInfo::default();
    info.set_field(EntryField::Password, String::from("first"));
    info.set_field(EntryField::ConfirmPassword, String::from("second"));
    info.set_field(EntryField::Password, String::from("third"));
    assert_eq!(info.field_text(EntryField::Password).as_str(), "third");
    assert_eq!(info.field_text(EntryField::ConfirmPassword).as_str(), "second");
    assert_eq!(info.field_text(EntryField::Fullname).as_str(), "");
    assert_eq!(info.field_text(EntryField::Username).as_str(), "");
}

#[test]
fn empty_edit_is_kept_as_empty() {
    let mut info = AccountInfo::default();
    info.set_field(EntryField::Username, String::from("someone"));
    info.set_field(EntryField::Username, String::new());
    assert_eq!(info.field_text(EntryField::Username).as_str(), "");
}

#[test]
fn fresh_session_has_the_documented_defaults() {
    let state = WizardState::new();
    assert_eq!(state.current_page, Page::Start);
    assert!(state.optional_program_state.zoom.checked);
    assert!(!state.optional_program_state.lo_impress.checked);
    assert_eq!(state.account_info_state.name, "");
    assert_eq!(state.button_states, ButtonStates::default());
}

#[test]
fn session_actions_touch_only_their_own_part() {
    let mut state = WizardState::new();
    let finished = state.advance_page();
    assert!(!finished);
    assert_eq!(state.current_page, Page::Firefox);
    state.toggle_program(OptionalProgram::LoCalc);
    assert_eq!(state.current_page, Page::Firefox);
    assert!(state.optional_program_state.lo_calc.checked);
    state.edit_field(EntryField::Fullname, String::from("Ada"));
    assert_eq!(state.current_page, Page::Firefox);
    assert!(state.optional_program_state.lo_calc.checked);
    assert_eq!(state.account_info_state.name, "Ada");
}

#[test]
fn finishing_the_session_takes_five_continues() {
    let mut state = WizardState::new();
    let mut presses: u32 = 0;
    loop {
        presses += 1;
        if state.advance_page() {
            break;
        }
    }
    assert_eq!(presses, 5);
    assert_eq!(state.current_page, Page::Account);
}

#[test]
fn button_kind_follows_the_page() {
    assert_eq!(button_kind(Page::Start), ButtonKind::Start);
    assert_eq!(button_kind(Page::Firefox), ButtonKind::Next);
    assert_eq!(button_kind(Page::Gmail), ButtonKind::Next);
    assert_eq!(button_kind(Page::Optionals), ButtonKind::Next);
    assert_eq!(button_kind(Page::Account), ButtonKind::Finish);
}

#[test]
fn page_headings_match_the_screens() {
    assert_eq!(heading_text(Page::Start), "Let's get you\nstarted.");
    assert_eq!(
        heading_text(Page::Firefox),
        "You can use Firefox to\nbrowse the web."
    );
    assert_eq!(
        heading_text(Page::Gmail),
        "You can use Gmail to\nsend and receive emails."
    );
    assert_eq!(heading_text(Page::Optionals), "Select optional programs.");
    assert_eq!(heading_text(Page::Account), "Create a user account.");
}

#[test]
fn program_listing_texts_and_order() {
    assert_eq!(
        program_order(),
        vec![
            OptionalProgram::Zoom,
            OptionalProgram::Vlc,
            OptionalProgram::LoWriter,
            OptionalProgram::LoCalc,
            OptionalProgram::LoImpress,
        ]
    );
    assert_eq!(program_name(OptionalProgram::Zoom), "Zoom");
    assert_eq!(program_name(OptionalProgram::Vlc), "VLC");
    assert_eq!(program_name(OptionalProgram::LoWriter), "LibreOffice Writer");
    assert_eq!(program_name(OptionalProgram::LoCalc), "LibreOffice Calc");
    assert_eq!(
        program_name(OptionalProgram::LoImpress),
        "LibreOffice Impress"
    );
    assert_eq!(
        program_description(OptionalProgram::Zoom),
        "Join video calls with friends, family, and coworkers."
    );
    assert_eq!(
        program_description(OptionalProgram::LoImpress),
        "Create and edit slideshows, similar to MS PowerPoint."
    );
}

#[test]
fn entry_field_labels_hints_and_masking() {
    assert_eq!(field_name(EntryField::Fullname), "Full Name");
    assert_eq!(field_name(EntryField::Username), "Username");
    assert_eq!(field_name(EntryField::Password), "Password");
    assert_eq!(field_name(EntryField::ConfirmPassword), "Confirm Password");
    assert_eq!(field_hint(EntryField::Fullname), Some("Willem Dafoe"));
    assert_eq!(field_hint(EntryField::Username), Some("willdafoe"));
    assert_eq!(field_hint(EntryField::Password), None);
    assert_eq!(field_hint(EntryField::ConfirmPassword), None);
    assert!(!EntryField::Fullname.hide_entry());
    assert!(!EntryField::Username.hide_entry());
    assert!(EntryField::Password.hide_entry());
    assert!(EntryField::ConfirmPassword.hide_entry());
    assert_eq!(
        password_warning(),
        "If you forget this password, you will\nlose all of your files and programs."
    );
}

#[test]
fn hover_flags_are_per_page() {
    let mut buttons = ButtonStates::default();
    buttons.set_hovered(Page::Gmail, true);
    assert!(buttons.hovered(Page::Gmail));
    assert!(!buttons.hovered(Page::Start));
    assert!(!buttons.hovered(Page::Account));
    buttons.set_hovered(Page::Gmail, false);
    assert!(!buttons.hovered(Page::Gmail));
}

#[test]
fn yes_answers_are_exactly_yes_and_y() {
    assert!("yes".is_yes());
    assert!("y".is_yes());
    assert!(!"no".is_yes());
    assert!(!"Yes".is_yes());
    assert!(!"".is_yes());
    assert!(!"yess".is_yes());
    assert!(String::from("yes").is_yes());
    assert!(String::from("y").is_yes());
    assert!(!String::from("n").is_yes());
}
