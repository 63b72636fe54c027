use rainbow_art::builtins::Builtins;
use rainbow_art::collect::{collect_files, Entry, EntryKind, Scanned};
use rainbow_art::color::{cell_color_index, rainbow_color, Color, ColorMode};
use rainbow_art::render::{render, tile, Cell};
use rainbow_art::select::{builtin_pool, pick_drawn, select, start_offset, Pick};
use rainbow_art::text::{longest_line, pad_line, split_lines};

fn strings(v: &[&str]) -> Vec<String> {
    v.iter().map(|s| s.to_string()).collect()
}

fn texts(line: &[Cell]) -> Vec<&str> {
    line.iter().map(|c| c.text.as_str()).collect()
}

fn colors(line: &[Cell]) -> Vec<Color> {
    line.iter().map(|c| c.color).collect()
}

#[test]
fn registry_lists_every_builtin_in_order() {
    assert_eq!(
        Builtins::all(),
        vec![Builtins::Catpeek, Builtins::LoveMyPuter, Builtins::Gamebtw, Builtins::Hashbang]
    );
}

#[test]
fn every_builtin_has_text() {
    for b in Builtins::all() {
        assert!(!b.get().is_empty());
        assert!(b.get().lines().count() > 1);
    }
    assert_ne!(Builtins::Catpeek.get(), Builtins::Hashbang.get());
}

#[test]
fn palette_maps_each_index() {
    assert_eq!(rainbow_color(0), Color::Red);
    assert_eq!(rainbow_color(1), Color::Green);
    assert_eq!(rainbow_color(2), Color::Yellow);
    assert_eq!(rainbow_color(3), Color::Blue);
    assert_eq!(rainbow_color(4), Color::Magenta);
    assert_eq!(rainbow_color(5), Color::Cyan);
    assert_eq!(rainbow_color(6), Color::Red);
    assert_eq!(rainbow_color(13), Color::Green);
    assert_eq!(rainbow_color(u64::MAX), Color::Blue);
}

#[test]
fn color_index_per_mode() {
    assert_eq!(cell_color_index(ColorMode::Uniform, 2, 7, 9, 40), 2);
    assert_eq!(cell_color_index(ColorMode::Uniform, 8, 0, 0, 1), 2);
    assert_eq!(cell_color_index(ColorMode::Solid, 1, 2, 4, 99), 1);
    assert_eq!(cell_color_index(ColorMode::Solid, 3, 255, 255, 1), (3 + 255 + 255) % 6);
    assert_eq!(cell_color_index(ColorMode::Rainbow, 4, 1, 1, 3), 1);
    assert_eq!(cell_color_index(ColorMode::Rainbow, 5, 0, 0, u64::MAX), ((u64::MAX % 6) + 5) % 6);
}

#[test]
fn uniform_mode_is_one_color() {
    let out = render(&strings(&["xyz", "q", "pq"]), 3, 4, ColorMode::Uniform, 9);
    for line in &out {
        for cell in line {
            assert_eq!(cell.color, Color::Blue);
        }
    }
}

#[test]
fn solid_mode_follows_row_and_column() {
    let out = render(&strings(&["a", "bb"]), 2, 3, ColorMode::Solid, 1);
    assert_eq!(out.len(), 4);
    for (i, line) in out.iter().enumerate() {
        let row = i / 2;
        for (column, cell) in line.iter().enumerate() {
            assert_eq!(cell.color, rainbow_color((1 + row + column) as u64));
        }
    }
    assert_eq!(colors(&out[0]), colors(&out[1]));
    assert_eq!(colors(&out[2]), vec![Color::Yellow, Color::Blue, Color::Magenta]);
}

#[test]
fn rainbow_mode_steps_per_line() {
    let out = render(&strings(&["a", "b", "c"]), 3, 2, ColorMode::Rainbow, 0);
    assert_eq!(out.len(), 9);
    for (i, line) in out.iter().enumerate() {
        assert_eq!(colors(line), vec![rainbow_color(i as u64 + 1); 2]);
    }
    assert_eq!(out[0][0].color, Color::Green);
    assert_eq!(out[5][1].color, Color::Red);
    assert_eq!(out[6][0].color, Color::Green);
}

#[test]
fn grid_has_rows_times_lines_of_columns_cells() {
    let out = render(&strings(&["one", "two"]), 2, 3, ColorMode::Solid, 0);
    assert_eq!(out.len(), 4);
    for line in &out {
        assert_eq!(line.len(), 3);
    }
    assert_eq!(texts(&out[3]), vec!["two", "two", "two"]);
}

#[test]
fn empty_grid_cases() {
    assert!(render(&strings(&["a"]), 0, 3, ColorMode::Solid, 0).is_empty());
    assert!(render(&Vec::new(), 4, 3, ColorMode::Solid, 0).is_empty());
    let out = render(&strings(&["a", "b"]), 2, 0, ColorMode::Solid, 0);
    assert_eq!(out.len(), 4);
    assert!(out.iter().all(|l| l.is_empty()));
}

#[test]
fn cells_pad_to_longest_but_the_last() {
    let out = render(&strings(&["a", "abcd", "ab"]), 1, 3, ColorMode::Uniform, 0);
    for line in &out {
        assert_eq!(line[0].text.chars().count(), 4);
        assert_eq!(line[1].text.chars().count(), 4);
    }
    assert_eq!(texts(&out[0]), vec!["a   ", "a   ", "a"]);
    assert_eq!(texts(&out[2]), vec!["ab  ", "ab  ", "ab"]);
}

#[test]
fn uniform_example_two_lines() {
    let out = render(&strings(&["AB", "C"]), 1, 3, ColorMode::Uniform, 2);
    assert_eq!(out.len(), 2);
    assert_eq!(texts(&out[0]), vec!["AB", "AB", "AB"]);
    assert_eq!(texts(&out[1]), vec!["C ", "C ", "C"]);
    for line in &out {
        assert_eq!(colors(line), vec![Color::Yellow; 3]);
    }
}

#[test]
fn tile_splits_the_text() {
    let out = tile("AB\r\nC\n", 1, 2, ColorMode::Rainbow, 0);
    assert_eq!(out.len(), 2);
    assert_eq!(texts(&out[0]), vec!["AB", "AB"]);
    assert_eq!(texts(&out[1]), vec!["C ", "C"]);
    assert_eq!(out[1][0].color, Color::Yellow);
}

#[test]
fn lines_split_like_std() {
    assert_eq!(split_lines("a\r\nb\n\nc\r"), strings(&["a", "b", "", "c\r"]));
    assert_eq!(split_lines(""), Vec::<String>::new());
    assert_eq!(split_lines("x\n"), strings(&["x"]));
    assert_eq!(split_lines("\n"), strings(&[""]));
}

#[test]
fn pad_adds_spaces_up_to_width() {
    assert_eq!(pad_line(&"C".to_string(), 3), "C  ");
    assert_eq!(pad_line(&"hello".to_string(), 2), "hello");
    assert_eq!(pad_line(&"".to_string(), 2), "  ");
}

#[test]
fn longest_counts_characters() {
    assert_eq!(longest_line(&strings(&["ab", "pâté!", "c"])), 5);
    assert_eq!(longest_line(&Vec::new()), 0);
}

#[test]
fn pool_follows_settings() {
    assert_eq!(builtin_pool(true, &vec![Builtins::Gamebtw]), vec![]);
    assert_eq!(builtin_pool(false, &vec![]), Builtins::all());
    assert_eq!(
        builtin_pool(false, &vec![Builtins::Hashbang, Builtins::Catpeek]),
        vec![Builtins::Hashbang, Builtins::Catpeek]
    );
}

#[test]
fn drawn_pick_is_exact() {
    let pool = vec![Builtins::Gamebtw, Builtins::Hashbang];
    assert_eq!(pick_drawn(&pool, 3, 0, 1), Pick::Builtin(Builtins::Hashbang));
    assert_eq!(pick_drawn(&pool, 3, 1, 2), Pick::File(2));
}

#[test]
fn nothing_when_both_pools_empty() {
    assert_eq!(select(true, &vec![], 0), Pick::Nothing);
    assert_eq!(select(true, &vec![Builtins::Catpeek], 0), Pick::Nothing);
}

#[test]
fn no_builtins_never_picks_a_builtin() {
    for _ in 0..200 {
        match select(true, &vec![Builtins::Catpeek, Builtins::Gamebtw], 3) {
            Pick::File(i) => assert!(i < 3),
            other => panic!("unexpected pick {:?}", other),
        }
    }
}

#[test]
fn named_builtins_restrict_the_pool() {
    for _ in 0..200 {
        match select(false, &vec![Builtins::LoveMyPuter], 0) {
            Pick::Builtin(b) => assert_eq!(b, Builtins::LoveMyPuter),
            other => panic!("unexpected pick {:?}", other),
        }
        match select(false, &vec![], 2) {
            Pick::Builtin(_) => {}
            Pick::File(i) => assert!(i < 2),
            Pick::Nothing => panic!("nothing picked"),
        }
    }
}

#[test]
fn offset_is_set_or_drawn_below_five() {
    assert_eq!(start_offset(Some(5)), 5);
    assert_eq!(start_offset(Some(0)), 0);
    for _ in 0..200 {
        assert!(start_offset(None) < 5);
    }
}

#[test]
fn directory_with_file_and_subdirectory() {
    let scanned = vec![Scanned::Directory(vec![
        Entry { path: "art/cat.txt".to_string(), kind: EntryKind::File },
        Entry { path: "art/more".to_string(), kind: EntryKind::Directory },
    ])];
    assert_eq!(collect_files(&scanned), strings(&["art/cat.txt"]));
}

#[test]
fn pool_keeps_files_and_skips_the_rest() {
    let scanned = vec![
        Scanned::File("a.txt".to_string()),
        Scanned::Directory(vec![
            Entry { path: "d/x".to_string(), kind: EntryKind::File },
            Entry { path: "d/link".to_string(), kind: EntryKind::Other },
            Entry { path: "d/bad".to_string(), kind: EntryKind::Unreadable },
            Entry { path: "d/y".to_string(), kind: EntryKind::File },
        ]),
        Scanned::Directory(vec![]),
        Scanned::File("b.txt".to_string()),
    ];
    assert_eq!(collect_files(&scanned), strings(&["a.txt", "d/x", "d/y", "b.txt"]));
}
