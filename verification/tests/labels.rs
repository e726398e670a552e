use relais::error::Error;
use relais::util::state::{AppState, Conf, WindowData};
use relais::view::util::{
    ctrl_to_window_and_data, new_window_label, to_ctrl_label, to_window_label, CTRL_LABEL_PREFIX,
    WINDOW_LABEL_PREFIX,
};

#[test]
fn prefixes() {
    assert_eq!(WINDOW_LABEL_PREFIX, "window_");
    assert_eq!(CTRL_LABEL_PREFIX, "ctrl_");
}

#[test]
fn ctrl_label_has_prefix() {
    assert_eq!(to_ctrl_label("window_a"), "ctrl_window_a");
    assert_eq!(to_ctrl_label(""), "ctrl_");
}

#[test]
fn window_label_drops_leftmost_prefix() {
    assert_eq!(to_window_label("ctrl_window_a"), "window_a");
    assert_eq!(to_window_label("window_a"), "window_a");
    assert_eq!(to_window_label("a_ctrl_b_ctrl_c"), "a_b_ctrl_c");
    assert_eq!(to_window_label("ctrl_ctrl_x"), "ctrl_x");
    assert_eq!(to_window_label("ctrl"), "ctrl");
    assert_eq!(to_window_label(""), "");
}

#[test]
fn window_label_counts_characters_not_bytes() {
    assert_eq!(to_window_label("fenêtre_ctrl_é"), "fenêtre_é");
    assert_eq!(to_window_label("ctrl_窓"), "窓");
}

#[test]
fn ctrl_label_leads_back_to_window_label() {
    for label in ["window_a", "", "ctrl_", "x_ctrl_y", "窓"] {
        assert_eq!(to_window_label(&to_ctrl_label(label)), label);
    }
}

#[test]
fn new_labels_are_prefixed_uuids() {
    let label = new_window_label();
    assert!(label.starts_with("window_"));
    let id: Vec<char> = label["window_".len()..].chars().collect();
    assert_eq!(id.len(), 36);
    for (i, c) in id.iter().enumerate() {
        if i == 8 || i == 13 || i == 18 || i == 23 {
            assert_eq!(*c, '-');
        } else {
            assert!(matches!(*c, '0'..='9' | 'a'..='f'));
        }
    }
    assert_ne!(new_window_label(), label);
}

#[test]
fn a_control_window_leads_to_its_pair() {
    let mut st: AppState = AppState::new("relaisrc.toml", |b| b.data(Conf::new()));
    let w = WindowData::new(
        String::from("a title"),
        String::from("window_a"),
        String::from("https://example.com/"),
    );
    assert_eq!(st.add_window(w), Ok(()));
    let (label, data) = ctrl_to_window_and_data("ctrl_window_a", &st).expect("the pair is there");
    assert_eq!(label, "window_a");
    assert_eq!(data.label(), "window_a");
    assert_eq!(data.title(), "a title");
    assert_eq!(ctrl_to_window_and_data("ctrl_window_b", &st).err(), Some(Error::NotFound));
    assert_eq!(ctrl_to_window_and_data("ctrl_", &st).err(), Some(Error::NotFound));
    let (label, _) = ctrl_to_window_and_data("window_a", &st).expect("no prefix to drop");
    assert_eq!(label, "window_a");
}
