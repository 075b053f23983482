//! The window.
use campc::config::{Config, ConnectionMode};
use campc::engine::{EngineCmd, Status};
use campc::panel::{
    canvas_message, ip_hint, rotation_label, rotations, selectable_btn, selector_colors,
    status_color, ButtonColors, ConfigUpdate, Panel, PanelEffect, PanelEvent, Shade, FPS_MAX, FPS_MIN,
    ZOOM_MAX_BITS,
};

fn panel() -> Panel {
    Panel::new(Config::default())
}

fn started_panel() -> Panel {
    let mut p = panel();
    p.render_controls(&vec![PanelEvent::StartPressed]);
    p
}

#[test]
fn labels() {
    assert_eq!(rotation_label(0), "0°");
    assert_eq!(rotation_label(270), "270°");
    assert_eq!(ip_hint(&None), "Buscando…");
    assert_eq!(ip_hint(&Some("10.0.0.2".to_string())), "10.0.0.2  (auto)");
    assert_eq!(canvas_message(true), "Esperando stream del teléfono…");
    assert_eq!(canvas_message(false), "Presiona ▶ Iniciar para comenzar");
}

#[test]
fn colours_of_the_window() {
    assert_eq!(status_color(&Status::Streaming), Shade::Green);
    assert_eq!(status_color(&Status::WaitingDevice), Shade::Yellow);
    assert_eq!(status_color(&Status::Connecting), Shade::Yellow);
    assert_eq!(status_color(&Status::Error(String::new())), Shade::Red);
    assert_eq!(status_color(&Status::Idle), Shade::Text);
    assert_eq!(Shade::Blue.rgb(), (137, 180, 250));
    assert_eq!(
        selector_colors(true),
        ButtonColors { background: Shade::Surface0, label: Shade::Text, border: Shade::Text }
    );
    assert_eq!(
        selectable_btn(false, 1, 2, 3, 4, 5),
        ButtonColors { background: 2, label: 4, border: 5 }
    );
}

#[test]
fn starting_and_stopping() {
    let mut p = panel();
    assert_eq!(
        p.render_controls(&vec![PanelEvent::StartPressed]),
        vec![PanelEffect::Send(EngineCmd::Start)]
    );
    assert!(p.started);
    assert_eq!(p.refresh_preview(vec![]), None);
    assert!(!p.preview_shown);
    assert_eq!(p.refresh_preview(vec![vec![1], vec![2], vec![3]]), Some(vec![3]));
    assert!(p.preview_shown);
    assert_eq!(
        p.render_controls(&vec![PanelEvent::StopPressed]),
        vec![PanelEffect::Send(EngineCmd::Stop)]
    );
    assert!(!p.started && !p.preview_shown);
    assert_eq!(
        p.render_controls(&vec![PanelEvent::ExitPressed]),
        vec![PanelEffect::Send(EngineCmd::Stop), PanelEffect::Close]
    );
}

#[test]
fn a_change_while_idle_is_saved_only() {
    let mut p = panel();
    assert_eq!(
        p.render_controls(&vec![PanelEvent::RotationChosen(90)]),
        vec![PanelEffect::SaveConfig]
    );
    assert_eq!(p.config.rotation, 90);
}

#[test]
fn a_change_while_streaming_reaches_the_engine() {
    let mut p = started_panel();
    // While the slider moves, nothing is saved yet.
    assert_eq!(p.render_controls(&vec![PanelEvent::FpsMoved(24)]), vec![]);
    let effects = p.render_controls(&vec![PanelEvent::FpsMoved(20), PanelEvent::FpsReleased]);
    let expected = Config {
        fps: 20,
        ..Config::default()
    };
    assert_eq!(
        effects,
        vec![
            PanelEffect::SaveConfig,
            PanelEffect::Send(EngineCmd::UpdateConfig(expected)),
        ]
    );
}

#[test]
fn the_address_field() {
    let mut p = started_panel();
    assert_eq!(
        p.render_controls(&vec![PanelEvent::IpEdited("10.0.0.9".to_string())]),
        vec![]
    );
    assert_eq!(p.config.wifi_ip, "10.0.0.9");
    assert_eq!(p.render_controls(&vec![PanelEvent::IpLeft]).len(), 2);
    assert_eq!(p.render_controls(&vec![PanelEvent::IpCleared]).len(), 2);
    assert_eq!(p.config.wifi_ip, "");
    p.render_controls(&vec![PanelEvent::ModeChosen(ConnectionMode::Usb)]);
    assert_eq!(p.config.connection_mode, ConnectionMode::Usb);
}

#[test]
fn zoom_stays_in_the_window() {
    let mut p = started_panel();
    assert_eq!(
        p.render_controls(&vec![PanelEvent::ZoomMoved(2.0f32.to_bits())]),
        vec![PanelEffect::SaveConfig]
    );
    assert_eq!(p.apply_scroll_zoom(3.0f32.to_bits()), vec![PanelEffect::SaveConfig]);
    assert_eq!(f32::from_bits(p.config.zoom_bits), 3.0);
    p.render_controls(&vec![PanelEvent::ZoomReset]);
    assert_eq!(f32::from_bits(p.config.zoom_bits), 1.0);
}

#[test]
fn follow_ups_of_a_change() {
    let p = started_panel();
    let none = ConfigUpdate { stream_relevant: false, zoom_only: false };
    assert_eq!(p.apply_config_update(none), vec![]);
    let both = ConfigUpdate { stream_relevant: true, zoom_only: true };
    assert_eq!(p.apply_config_update(both).len(), 2);
}

#[test]
fn closing_the_window() {
    let mut p = panel();
    assert_eq!(
        p.on_exit(Some(77)),
        vec![
            PanelEffect::Send(EngineCmd::Stop),
            PanelEffect::KillPid(77),
            PanelEffect::SaveConfig,
        ]
    );
    p.config.connection_mode = ConnectionMode::Usb;
    assert_eq!(
        p.on_exit(None),
        vec![
            PanelEffect::Send(EngineCmd::Stop),
            PanelEffect::RemoveForward(5000),
            PanelEffect::SaveConfig,
        ]
    );
}

#[test]
fn start_is_offered_while_stopped_and_stop_while_started() {
    let p = panel();
    assert!(p.offers(&PanelEvent::StartPressed));
    assert!(!p.offers(&PanelEvent::StopPressed));
    let p = started_panel();
    assert!(!p.offers(&PanelEvent::StartPressed));
    assert!(p.offers(&PanelEvent::StopPressed));
    assert!(p.offers(&PanelEvent::ExitPressed));
}

#[test]
fn the_controls_have_their_ranges() {
    let p = panel();
    assert_eq!((FPS_MIN, FPS_MAX), (5, 30));
    for (fps, offered) in [(4, false), (5, true), (30, true), (31, false)] {
        assert_eq!(p.offers(&PanelEvent::FpsMoved(fps)), offered);
    }
    assert_eq!(rotations(), [0, 90, 180, 270]);
    for deg in rotations() {
        assert!(p.offers(&PanelEvent::RotationChosen(deg)));
    }
    assert!(!p.offers(&PanelEvent::RotationChosen(45)));
    assert_eq!(f32::from_bits(ZOOM_MAX_BITS), 4.0);
    for zoom in [0.9f32, 1.0, 2.5, 4.0, 4.1, -2.0, f32::NAN] {
        let offered = zoom >= 1.0 && zoom <= 4.0;
        assert_eq!(p.offers(&PanelEvent::ZoomMoved(zoom.to_bits())), offered);
    }
}

#[test]
fn the_address_field_is_offered_over_wifi() {
    let mut p = panel();
    assert!(p.offers(&PanelEvent::IpLeft));
    assert!(p.offers(&PanelEvent::IpEdited("10.0.0.9".to_string())));
    assert!(!p.offers(&PanelEvent::IpCleared));
    p.config.wifi_ip = "10.0.0.9".to_string();
    assert!(p.offers(&PanelEvent::IpCleared));
    p.config.connection_mode = ConnectionMode::Usb;
    assert!(!p.offers(&PanelEvent::IpCleared));
    assert!(!p.offers(&PanelEvent::IpLeft));
}
