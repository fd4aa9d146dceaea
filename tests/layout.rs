use kitchune::layout::{
    Action, FontId, Label, Overflow, Point, TextAlign, Ui, ICON_ADD, ICON_PAUSE, ICON_PLAY,
    ICON_SKIP_NEXT, ICON_TICK, WIDTH,
};
use kitchune::model::Model;

fn overlap(a: &Label, b: &Label) -> bool {
    a.x < b.x + b.w && b.x < a.x + a.w && a.y < b.y + b.h && b.y < a.y + a.h
}

fn at(x: i32, y: i32) -> Point {
    Point { x, y }
}

#[test]
fn labels_never_overlap() {
    let ui = Ui::new();
    let labels = ui.labels();
    assert_eq!(labels.len(), 5);
    for i in 0..5 {
        for j in 0..5 {
            if i != j {
                assert!(!overlap(labels[i], labels[j]));
            }
        }
    }
}

#[test]
fn layout_geometry() {
    let ui = Ui::new();
    let l = ui.labels();
    assert_eq!((l[0].x, l[0].y, l[0].w, l[0].h), (48, 48, 384, 32));
    assert_eq!((l[1].x, l[1].y, l[1].w, l[1].h), (48, 80, 384, 32));
    assert_eq!((l[2].x, l[2].y, l[2].w, l[2].h), (32, 144, 128, 128));
    assert_eq!((l[3].x, l[3].y, l[3].w, l[3].h), (176, 144, 128, 128));
    assert_eq!((l[4].x, l[4].y, l[4].w, l[4].h), (320, 144, 128, 128));
    assert_eq!(l[2].x + (l[4].x + l[4].w), WIDTH);
    assert_eq!(l[0].font, FontId::Text24);
    assert_eq!(l[1].font, FontId::Text18);
    assert_eq!(l[0].overflow, Overflow::Ellipsis);
    assert_eq!(l[3].overflow, Overflow::Hidden);
    assert_eq!(l[3].align, TextAlign::Center);
    assert_eq!(l[0].align, TextAlign::Left);
}

#[test]
fn click_inside_each_button() {
    let ui = Ui::new();
    assert_eq!(ui.click(at(96, 208)), Some(Action::Save));
    assert_eq!(ui.click(at(240, 208)), Some(Action::PlayPause));
    assert_eq!(ui.click(at(384, 208)), Some(Action::SkipNext));
}

#[test]
fn click_on_button_corners() {
    let ui = Ui::new();
    let buttons = [(32, Action::Save), (176, Action::PlayPause), (320, Action::SkipNext)];
    for (x, a) in buttons.iter() {
        let x = *x as i32;
        assert_eq!(ui.click(at(x, 144)), Some(*a));
        assert_eq!(ui.click(at(x + 127, 144)), Some(*a));
        assert_eq!(ui.click(at(x, 271)), Some(*a));
        assert_eq!(ui.click(at(x + 127, 271)), Some(*a));
    }
}

#[test]
fn click_just_outside_each_button() {
    let ui = Ui::new();
    for x in [32, 176, 320].iter() {
        let x = *x as i32;
        assert_eq!(ui.click(at(x - 1, 200)), None);
        assert_eq!(ui.click(at(x + 128, 200)), None);
        assert_eq!(ui.click(at(x + 64, 143)), None);
        assert_eq!(ui.click(at(x + 64, 272)), None);
    }
}

#[test]
fn click_elsewhere_gives_nothing() {
    let ui = Ui::new();
    assert_eq!(ui.click(at(100, 60)), None);
    assert_eq!(ui.click(at(100, 90)), None);
    assert_eq!(ui.click(at(-5, 200)), None);
    assert_eq!(ui.click(at(100, -1)), None);
    assert_eq!(ui.click(at(i32::MAX, i32::MAX)), None);
    assert_eq!(ui.click(at(i32::MIN, 200)), None);
}

#[test]
fn every_pixel_hits_the_button_holding_it() {
    let ui = Ui::new();
    for y in 0..320 {
        for x in 0..480 {
            let in_row = (144..272).contains(&y);
            let expected = if in_row && (32..160).contains(&x) {
                Some(Action::Save)
            } else if in_row && (176..304).contains(&x) {
                Some(Action::PlayPause)
            } else if in_row && (320..448).contains(&x) {
                Some(Action::SkipNext)
            } else {
                None
            };
            assert_eq!(ui.click(at(x, y)), expected);
        }
    }
}

#[test]
fn update_data_binds_playing_unsaved_track() {
    let mut ui = Ui::new();
    let model = Model {
        track_name: "Because Of You".to_string(),
        track_artist: "S.P.Y, Etherwood".to_string(),
        playing: true,
        saved: false,
    };
    ui.update_data(&model);
    let l = ui.labels();
    assert_eq!(l[0].text, "Because Of You");
    assert_eq!(l[1].text, "S.P.Y, Etherwood");
    assert_eq!(l[2].text, ICON_ADD);
    assert_eq!(l[3].text, ICON_PAUSE);
    assert_eq!(l[4].text, ICON_SKIP_NEXT);
    assert_eq!(l[2].text, "\u{e145}");
    assert_eq!(l[3].text, "\u{e034}");
}

#[test]
fn update_data_binds_paused_saved_track_and_replaces_all() {
    let mut ui = Ui::new();
    ui.update_data(&Model {
        track_name: "A".to_string(),
        track_artist: "B".to_string(),
        playing: true,
        saved: false,
    });
    ui.update_data(&Model {
        track_name: "C".to_string(),
        track_artist: String::new(),
        playing: false,
        saved: true,
    });
    let l = ui.labels();
    assert_eq!(l[0].text, "C");
    assert_eq!(l[1].text, "");
    assert_eq!(l[2].text, ICON_TICK);
    assert_eq!(l[3].text, ICON_PLAY);
    assert_eq!((l[3].x, l[3].y, l[3].w, l[3].h), (176, 144, 128, 128));
}

#[test]
fn default_model_is_empty() {
    let m = Model::default();
    assert_eq!(m.track_name, "");
    assert_eq!(m.track_artist, "");
    assert!(!m.playing);
    assert!(!m.saved);
}

#[test]
fn place_left_aligned_text() {
    let ui = Ui::new();
    let title = ui.labels()[0];
    assert_eq!(title.place(200, 20), (48, 54));
    assert_eq!(title.place(500, 40), (48, 48));
}

#[test]
fn place_centred_glyph() {
    let ui = Ui::new();
    let play = ui.labels()[3];
    assert_eq!(play.place(100, 60), (190, 178));
    assert_eq!(play.place(128, 128), (176, 144));
    assert_eq!(play.place(101, 61), (189, 177));
    assert_eq!(play.place(300, 300), (176, 144));
}

#[test]
fn display_text_shortens_only_ellipsis_labels() {
    let mut ui = Ui::new();
    let long = "x".repeat(100);
    ui.update_data(&Model { track_name: long.clone(), track_artist: "ab".to_string(), playing: false, saved: false });
    let measure = |s: &str| -> Result<u32, ()> { Ok(10 * s.chars().count() as u32) };
    let l = ui.labels();
    let title = l[0].display_text(measure).unwrap();
    assert_eq!(title, format!("{}\u{2026}", "x".repeat(37)));
    assert_eq!(l[1].display_text(measure).unwrap(), "ab");
    assert_eq!(l[3].display_text(measure).unwrap(), ICON_PLAY);
}
