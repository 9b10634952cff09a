use rime_tui::key_event::resolve_key_code;

/// Every scan code of the fixed table with its base symbol (Shift not
/// latched, empty effective mask).
const BASE_TABLE: &[(u32, u32)] = &[
    // QWERTY row
    (24, 'q' as u32),
    (25, 'w' as u32),
    (26, 'e' as u32),
    (27, 'r' as u32),
    (28, 't' as u32),
    (29, 'y' as u32),
    (30, 'u' as u32),
    (31, 'i' as u32),
    (32, 'o' as u32),
    (33, 'p' as u32),
    // home row
    (38, 'a' as u32),
    (39, 's' as u32),
    (40, 'd' as u32),
    (41, 'f' as u32),
    (42, 'g' as u32),
    (43, 'h' as u32),
    (44, 'j' as u32),
    (45, 'k' as u32),
    (46, 'l' as u32),
    // bottom row
    (52, 'z' as u32),
    (53, 'x' as u32),
    (54, 'c' as u32),
    (55, 'v' as u32),
    (56, 'b' as u32),
    (57, 'n' as u32),
    (58, 'm' as u32),
    // number row
    (10, '1' as u32),
    (11, '2' as u32),
    (12, '3' as u32),
    (13, '4' as u32),
    (14, '5' as u32),
    (15, '6' as u32),
    (16, '7' as u32),
    (17, '8' as u32),
    (18, '9' as u32),
    (19, '0' as u32),
    // single keys
    (65, ' ' as u32),
    (22, 0xff08), // BackSpace
    (36, 0xff0d), // Return
    (9, 0xff1b),  // Escape
    (20, '-' as u32),
    (21, '=' as u32),
    (34, '[' as u32),
    (35, ']' as u32),
    (51, '\\' as u32),
    (47, ';' as u32),
    (48, '\'' as u32),
    (59, ',' as u32),
    (60, '%' as u32),
    (61, '/' as u32),
    // arrows and others
    (111, 0xff52), // Up
    (116, 0xff54), // Down
    (113, 0xff51), // Left
    (114, 0xff53), // Right
    (23, 0xff09),  // Tab
    (66, 0xffe5),  // Caps Lock
    (49, '`' as u32),
    // numeric pad with NumLock off
    (87, 0xffb1),
    (88, 0xffb2),
    (89, 0xffb3),
    (83, 0xffb4),
    (84, 0xffb5),
    (85, 0xffb6),
    (79, 0xffb7),
    (80, 0xffb8),
    (81, 0xffb9),
    (90, 0xffb0),
    (91, 0xff9f),  // KP Delete
    (104, 0xff8d), // KP Enter
    (82, 0xffad),  // KP Subtract
    (86, 0xffab),  // KP Add
    (77, 0xff7f),  // Num Lock
    (106, 0xffaf), // KP Divide
    (63, 0xffaa),  // KP Multiply
    // function keys
    (67, 0xffbe),
    (68, 0xffbf),
    (69, 0xffc0),
    (70, 0xffc1),
    (71, 0xffc2),
    (72, 0xffc3),
    (73, 0xffc4),
    (74, 0xffc5),
    (75, 0xffc6),
    (76, 0xffc7),
    (95, 0xffc8),
    (96, 0xffc9),
    (127, 0xff13), // Pause
    (119, 0xffff), // Delete
    // modifier keys
    (64, 0xffe9),  // Alt left
    (108, 0xffea), // Alt right
    (50, 0xffe1),  // Shift left
    (62, 0xffe2),  // Shift right
    (37, 0xffe3),  // Control left
    (105, 0xffe4), // Control right
];

/// The scan codes whose symbol changes while Shift is latched, with the
/// substituted symbol.
const SHIFTED_TABLE: &[(u32, u32)] = &[
    (24, 'Q' as u32),
    (25, 'W' as u32),
    (26, 'E' as u32),
    (27, 'R' as u32),
    (28, 'T' as u32),
    (29, 'Y' as u32),
    (30, 'U' as u32),
    (31, 'I' as u32),
    (32, 'O' as u32),
    (33, 'P' as u32),
    (38, 'A' as u32),
    (39, 'S' as u32),
    (40, 'D' as u32),
    (41, 'F' as u32),
    (42, 'G' as u32),
    (43, 'H' as u32),
    (44, 'J' as u32),
    (45, 'K' as u32),
    (46, 'L' as u32),
    (52, 'Z' as u32),
    (53, 'X' as u32),
    (54, 'C' as u32),
    (55, 'V' as u32),
    (56, 'B' as u32),
    (57, 'N' as u32),
    (58, 'M' as u32),
    (10, '!' as u32),
    (11, '@' as u32),
    (12, '#' as u32),
    (13, '$' as u32),
    (14, '%' as u32),
    (15, '^' as u32),
    (16, '&' as u32),
    (17, '*' as u32),
    (18, '(' as u32),
    (19, ')' as u32),
    (20, '_' as u32),
    (21, '+' as u32),
    (34, '{' as u32),
    (35, '}' as u32),
    (51, '|' as u32),
    (47, ':' as u32),
    (48, '"' as u32),
    (59, '<' as u32),
    (60, '>' as u32),
    (61, '?' as u32),
    (49, '~' as u32),
];

#[test]
fn base_table_resolves() {
    for &(scan, expected) in BASE_TABLE {
        assert_eq!(
            resolve_key_code(scan, false, 0),
            expected,
            "scan code {scan} without Shift"
        );
    }
}

#[test]
fn shifted_table_substitutes() {
    for &(scan, expected) in SHIFTED_TABLE {
        assert_eq!(
            resolve_key_code(scan, true, 0),
            expected,
            "scan code {scan} with Shift"
        );
    }
}

#[test]
fn shift_leaves_other_scan_codes_at_their_base_symbol() {
    let shifted: Vec<u32> = SHIFTED_TABLE.iter().map(|x| x.0).collect();
    for &(scan, expected) in BASE_TABLE {
        if !shifted.contains(&scan) {
            assert_eq!(
                resolve_key_code(scan, true, 0),
                expected,
                "scan code {scan} with Shift"
            );
        }
    }
}

#[test]
fn num_lock_voids_the_numpad_digit_block() {
    for scan in [79, 80, 81, 83, 84, 85, 87, 88, 89, 90] {
        assert_eq!(resolve_key_code(scan, false, 0x10), 0xffffff);
    }
    // The rest of the numeric pad is not gated.
    assert_eq!(resolve_key_code(82, false, 0x10), 0xffad);
    assert_eq!(resolve_key_code(86, false, 0x10), 0xffab);
}
