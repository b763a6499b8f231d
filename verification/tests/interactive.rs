use pdf_writer::{
    Action, ActionType, Name, Obj, Real, Ref, Str, Transition, TransitionAngle, TransitionStyle,
};

#[test]
fn transition_without_setters_holds_only_its_type() {
    let mut buf = Vec::new();
    Transition::new(Obj::new(&mut buf)).finish();
    assert_eq!(buf, b"<<\n  /Type /Trans\n>>");
}

#[test]
fn uri_action_keys_in_call_order() {
    let mut buf = Vec::new();
    let mut action = Action::new(Obj::new(&mut buf));
    action.action_type(ActionType::Uri).uri(Str(b"https://example.com"));
    action.finish();
    assert_eq!(
        buf,
        b"<<\n  /Type /Action\n  /S /URI\n  /URI (https://example.com)\n>>"
    );
}

#[test]
fn diagonal_angle_is_the_number_315() {
    let mut buf = Vec::new();
    let mut trans = Transition::new(Obj::new(&mut buf));
    trans.angle(TransitionAngle::TopLeftToBottomRight);
    trans.finish();
    assert_eq!(buf, b"<<\n  /Type /Trans\n  /Di 315\n>>");
}

#[test]
fn no_direction_is_the_name_none() {
    let mut buf = Vec::new();
    let mut trans = Transition::new(Obj::new(&mut buf));
    trans.angle(TransitionAngle::NoDirection);
    trans.finish();
    assert_eq!(buf, b"<<\n  /Type /Trans\n  /Di /None\n>>");
}

#[test]
fn transition_setters_chain_in_any_order() {
    let mut buf = Vec::new();
    let mut trans = Transition::new(Obj::new(&mut buf));
    trans
        .style(TransitionStyle::Fly)
        .duration(Real::parse(b"1.5").unwrap())
        .dimension(true)
        .direction(false)
        .angle(TransitionAngle::TopToBottom)
        .scale(Real::parse(b"0.75").unwrap())
        .opaque(Real::parse(b"1").unwrap());
    trans.finish();
    assert_eq!(
        buf,
        b"<<\n  /Type /Trans\n  /S /Fly\n  /D 1.5\n  /Dm /V\n  /M /I\n  /Di 270\n  /SS 0.75\n  /F 1\n>>"
    );
}

#[test]
fn action_with_direct_destination_and_file() {
    let mut buf = Vec::new();
    let mut action = Action::new(Obj::new(&mut buf));
    action.action_type(ActionType::RemoteGoTo);
    action.dest_direct(Ref::new(7)).fit();
    let mut file = action.file();
    file.path(Str(b"other.pdf"));
    file.finish();
    action.new_window(true).is_map(false).dest_name(Name(b"Chapter 1"));
    action.finish();
    assert_eq!(
        buf,
        b"<<\n  /Type /Action\n  /S /GoToR\n  /D [7 0 R /Fit]\n  /F <<\n    /Type /Filespec\n    /F (other.pdf)\n  >>\n  /NewWindow true\n  /IsMap false\n  /D /Chapter#201\n>>"
    );
}

fn style_line(kind: TransitionStyle) -> Vec<u8> {
    let mut buf = Vec::new();
    let mut trans = Transition::new(Obj::new(&mut buf));
    trans.style(kind);
    trans.finish();
    buf
}

fn angle_line(angle: TransitionAngle) -> Vec<u8> {
    let mut buf = Vec::new();
    let mut trans = Transition::new(Obj::new(&mut buf));
    trans.angle(angle);
    trans.finish();
    buf
}

fn action_line(kind: ActionType) -> Vec<u8> {
    let mut buf = Vec::new();
    let mut action = Action::new(Obj::new(&mut buf));
    action.action_type(kind);
    action.finish();
    buf
}

#[test]
fn every_style_has_its_name() {
    assert_eq!(TransitionStyle::Split.to_name().0, b"Split");
    assert_eq!(TransitionStyle::Blinds.to_name().0, b"Blinds");
    assert_eq!(TransitionStyle::Box.to_name().0, b"Box");
    assert_eq!(TransitionStyle::Wipe.to_name().0, b"Wipe");
    assert_eq!(TransitionStyle::Dissolve.to_name().0, b"Dissolve");
    assert_eq!(TransitionStyle::Glitter.to_name().0, b"Glitter");
    assert_eq!(TransitionStyle::R.to_name().0, b"R");
    assert_eq!(TransitionStyle::Fly.to_name().0, b"Fly");
    assert_eq!(TransitionStyle::Push.to_name().0, b"Push");
    assert_eq!(TransitionStyle::Cover.to_name().0, b"Cover");
    assert_eq!(TransitionStyle::Uncover.to_name().0, b"Uncover");
    assert_eq!(TransitionStyle::Fade.to_name().0, b"Fade");
}

#[test]
fn no_two_styles_share_a_token() {
    let lines = vec![
        style_line(TransitionStyle::Split),
        style_line(TransitionStyle::Blinds),
        style_line(TransitionStyle::Box),
        style_line(TransitionStyle::Wipe),
        style_line(TransitionStyle::Dissolve),
        style_line(TransitionStyle::Glitter),
        style_line(TransitionStyle::R),
        style_line(TransitionStyle::Fly),
        style_line(TransitionStyle::Push),
        style_line(TransitionStyle::Cover),
        style_line(TransitionStyle::Uncover),
        style_line(TransitionStyle::Fade),
    ];
    for i in 0..lines.len() {
        for j in 0..i {
            assert_ne!(lines[i], lines[j]);
        }
    }
    assert_eq!(lines[0], b"<<\n  /Type /Trans\n  /S /Split\n>>");
    assert_eq!(lines[10], b"<<\n  /Type /Trans\n  /S /Uncover\n>>");
}

#[test]
fn every_action_type_has_its_name() {
    assert_eq!(ActionType::GoTo.to_name().0, b"GoTo");
    assert_eq!(ActionType::RemoteGoTo.to_name().0, b"GoToR");
    assert_eq!(ActionType::Launch.to_name().0, b"Launch");
    assert_eq!(ActionType::Uri.to_name().0, b"URI");
    assert_eq!(action_line(ActionType::GoTo), b"<<\n  /Type /Action\n  /S /GoTo\n>>");
    assert_eq!(action_line(ActionType::RemoteGoTo), b"<<\n  /Type /Action\n  /S /GoToR\n>>");
    assert_eq!(action_line(ActionType::Launch), b"<<\n  /Type /Action\n  /S /Launch\n>>");
    assert_eq!(action_line(ActionType::Uri), b"<<\n  /Type /Action\n  /S /URI\n>>");
}

#[test]
fn every_angle_has_its_token() {
    assert_eq!(angle_line(TransitionAngle::LeftToRight), b"<<\n  /Type /Trans\n  /Di 0\n>>");
    assert_eq!(angle_line(TransitionAngle::BottomToTop), b"<<\n  /Type /Trans\n  /Di 90\n>>");
    assert_eq!(angle_line(TransitionAngle::RightToLeft), b"<<\n  /Type /Trans\n  /Di 180\n>>");
    assert_eq!(angle_line(TransitionAngle::TopToBottom), b"<<\n  /Type /Trans\n  /Di 270\n>>");
    assert_eq!(
        angle_line(TransitionAngle::TopLeftToBottomRight),
        b"<<\n  /Type /Trans\n  /Di 315\n>>"
    );
    assert_eq!(angle_line(TransitionAngle::NoDirection), b"<<\n  /Type /Trans\n  /Di /None\n>>");
}

#[test]
fn angle_through_a_cursor() {
    let mut buf = Vec::new();
    TransitionAngle::BottomToTop.write_to_obj(Obj::new(&mut buf));
    assert_eq!(buf, b"90");
    let mut buf = Vec::new();
    TransitionAngle::NoDirection.write_to_obj(Obj::new(&mut buf));
    assert_eq!(buf, b"/None");
}

#[test]
fn dimension_and_direction_names() {
    let mut buf = Vec::new();
    let mut trans = Transition::new(Obj::new(&mut buf));
    trans.dimension(false).dimension(true).direction(true).direction(false);
    trans.finish();
    assert_eq!(
        buf,
        b"<<\n  /Type /Trans\n  /Dm /H\n  /Dm /V\n  /M /O\n  /M /I\n>>"
    );
}

#[test]
fn a_setter_called_twice_writes_twice() {
    let mut buf = Vec::new();
    let mut trans = Transition::new(Obj::new(&mut buf));
    trans.style(TransitionStyle::Box).style(TransitionStyle::Wipe);
    trans.finish();
    assert_eq!(buf, b"<<\n  /Type /Trans\n  /S /Box\n  /S /Wipe\n>>");
}

#[test]
fn both_destination_forms_write_two_keys() {
    let mut buf = Vec::new();
    let mut action = Action::new(Obj::new(&mut buf));
    action.dest_direct(Ref::new(2)).fit();
    action.dest_name(Name(b"intro"));
    action.finish();
    assert_eq!(
        buf,
        b"<<\n  /Type /Action\n  /D [2 0 R /Fit]\n  /D /intro\n>>"
    );
}

#[test]
fn transition_as_the_value_of_a_key() {
    let mut buf = Vec::new();
    let mut page = Obj::new(&mut buf).begin_dict();
    let mut trans = Transition::new(page.key(Name(b"Trans")));
    trans.style(TransitionStyle::Fade);
    trans.finish();
    page.pair(Name(b"Dur"), 5);
    page.finish();
    assert_eq!(
        buf,
        b"<<\n  /Trans <<\n    /Type /Trans\n    /S /Fade\n  >>\n  /Dur 5\n>>"
    );
}

#[test]
fn launch_action_with_a_file() {
    let mut buf = Vec::new();
    let mut action = Action::new(Obj::new(&mut buf));
    action.action_type(ActionType::Launch);
    action.file().finish();
    action.new_window(false);
    action.finish();
    assert_eq!(
        buf,
        b"<<\n  /Type /Action\n  /S /Launch\n  /F <<\n    /Type /Filespec\n  >>\n  /NewWindow false\n>>"
    );
}

#[test]
fn output_follows_what_the_buffer_held() {
    let mut buf = b"5 0 obj\n".to_vec();
    Action::new(Obj::new(&mut buf)).finish();
    buf.extend(b"\nendobj\n");
    assert_eq!(buf, b"5 0 obj\n<<\n  /Type /Action\n>>\nendobj\n");
}
