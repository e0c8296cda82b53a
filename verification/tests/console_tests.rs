use axplat_aarch64::pl011;
use axplat_aarch64::ps2_keyboard::{device_absent, is_ack, ps2_scancode_to_ascii, Ps2Keyboard};
use axplat_aarch64::driver_input::InputEvent;
use axplat_aarch64::vga::{ansi_to_rgb, LogBuffer, VgaConsole, LOG_BUFFER_SIZE};
use font8x8::UnicodeFonts;

#[test]
fn log_buffer_is_fifo() {
    let mut b = LogBuffer::new();
    assert!(b.is_empty());
    b.push(1);
    b.push(2);
    b.push_bytes(&vec![3, 4, 5]);
    assert_eq!(b.len(), 5);
    assert!(!b.is_empty());
    assert_eq!(b.contents(), vec![1, 2, 3, 4, 5]);
    let mut it = b.iter();
    assert_eq!(it.next(), Some(1));
    assert_eq!(it.next(), Some(2));
    assert_eq!(it.next(), Some(3));
    assert_eq!(it.next(), Some(4));
    assert_eq!(it.next(), Some(5));
    assert_eq!(it.next(), None);
}

#[test]
fn log_buffer_overwrites_oldest_when_full() {
    let mut b = LogBuffer::new();
    let extra = 5usize;
    for i in 0..(LOG_BUFFER_SIZE + extra) {
        b.push((i % 251) as u8);
    }
    assert_eq!(b.len(), LOG_BUFFER_SIZE);
    let contents = b.contents();
    // The first `extra` bytes were displaced; the oldest kept byte is
    // the one pushed at position `extra`.
    assert_eq!(contents[0], (extra % 251) as u8);
    assert_eq!(
        contents[LOG_BUFFER_SIZE - 1],
        ((LOG_BUFFER_SIZE + extra - 1) % 251) as u8
    );
}

#[test]
fn vga_new_starts_clean() {
    let c = VgaConsole::new(0, 2);
    assert_eq!(c.cursor_position(), (0, 0));
    assert_eq!(c.log_buffer_len(), 0);
    assert_eq!(c.pixel(0, 0), 0);
}

#[test]
fn vga_draws_basic_font_glyph() {
    let mut c = VgaConsole::new(0, 1);
    c.write_byte(b'A');
    assert_eq!(c.cursor_position(), (1, 0));
    let glyph = font8x8::BASIC_FONTS.get('A').unwrap();
    for py in 0..8usize {
        for px in 0..8usize {
            let expected = if (glyph[py] >> px) & 1 != 0 {
                0xFFFFFF
            } else {
                0x000000
            };
            assert_eq!(c.pixel(px, py), expected, "pixel ({px}, {py})");
        }
    }
}

#[test]
fn vga_unknown_byte_draws_question_mark() {
    let mut c = VgaConsole::new(0, 1);
    c.write_byte(200);
    let glyph = font8x8::BASIC_FONTS.get('?').unwrap();
    for py in 0..8usize {
        for px in 0..8usize {
            let expected = if (glyph[py] >> px) & 1 != 0 {
                0xFFFFFF
            } else {
                0x000000
            };
            assert_eq!(c.pixel(px, py), expected, "pixel ({px}, {py})");
        }
    }
}

#[test]
fn vga_font_scale_doubles_pixels() {
    let mut c = VgaConsole::new(0, 2);
    c.write_byte(b'A');
    let glyph = font8x8::BASIC_FONTS.get('A').unwrap();
    for py in 0..16usize {
        for px in 0..16usize {
            let expected = if (glyph[py / 2] >> (px / 2)) & 1 != 0 {
                0xFFFFFF
            } else {
                0x000000
            };
            assert_eq!(c.pixel(px, py), expected, "pixel ({px}, {py})");
        }
    }
}

#[test]
fn vga_newline_and_carriage_return_move_cursor() {
    let mut c = VgaConsole::new(0, 2);
    c.write_bytes(&b"AB".to_vec());
    assert_eq!(c.cursor_position(), (2, 0));
    c.write_byte(b'\n');
    assert_eq!(c.cursor_position(), (0, 1));
    c.write_bytes(&b"C".to_vec());
    assert_eq!(c.cursor_position(), (1, 1));
    c.write_byte(b'\r');
    assert_eq!(c.cursor_position(), (0, 1));
    assert_eq!(c.log_buffer_len(), 5);
}

#[test]
fn vga_tab_advances_to_next_stop() {
    let mut c = VgaConsole::new(0, 2);
    c.write_byte(b'\t');
    assert_eq!(c.cursor_position(), (4, 0));
    c.write_byte(b'A');
    assert_eq!(c.cursor_position(), (5, 0));
    c.write_byte(b'\t');
    assert_eq!(c.cursor_position(), (8, 0));
}

#[test]
fn vga_ansi_colour_changes_foreground() {
    let mut c = VgaConsole::new(0, 1);
    c.write_bytes(&b"\x1b[31mA".to_vec());
    let glyph = font8x8::BASIC_FONTS.get('A').unwrap();
    // Find one set bit of the glyph and check its colour.
    let mut checked = false;
    for py in 0..8usize {
        for px in 0..8usize {
            if (glyph[py] >> px) & 1 != 0 {
                assert_eq!(c.pixel(px, py), 0xCC0000);
                checked = true;
            }
        }
    }
    assert!(checked);
    // Escape bytes do not draw or move the cursor.
    assert_eq!(c.cursor_position(), (1, 0));
}

#[test]
fn vga_ansi_reset_restores_defaults() {
    let mut c = VgaConsole::new(0, 1);
    c.write_bytes(&b"\x1b[93m\x1b[0mA".to_vec());
    let glyph = font8x8::BASIC_FONTS.get('A').unwrap();
    for py in 0..8usize {
        for px in 0..8usize {
            if (glyph[py] >> px) & 1 != 0 {
                assert_eq!(c.pixel(px, py), 0xFFFFFF);
            }
        }
    }
}

#[test]
fn vga_line_wraps_at_last_column() {
    let mut c = VgaConsole::new(0, 2);
    // 1920 / 16 = 120 columns at scale 2.
    for _ in 0..120 {
        c.write_byte(b'x');
    }
    assert_eq!(c.cursor_position(), (120, 0));
    c.write_byte(b'y');
    assert_eq!(c.cursor_position(), (1, 1));
}

#[test]
fn vga_scrolls_when_grid_is_full() {
    // Scale 100: cells are 800 pixels tall, so the grid has one row.
    let mut c = VgaConsole::new(0, 100);
    c.write_byte(b'A');
    // Some glyph pixel is set somewhere in the 800x800 cell.
    let before: Vec<u32> = (0..8).map(|i| c.pixel(i * 100 + 50, 50)).collect();
    assert!(before.iter().any(|&p| p != 0));
    c.write_byte(b'\n');
    // A newline on the last row scrolls the single row away.
    assert_eq!(c.cursor_position(), (0, 0));
    for i in 0..8 {
        assert_eq!(c.pixel(i * 100 + 50, 50), 0);
    }
}

#[test]
fn vga_redraw_from_log_reproduces_output() {
    let mut c = VgaConsole::new(0, 1);
    c.write_bytes(&b"\x1b[32mHi\nthere".to_vec());
    c.set_font_scale(2);
    c.redraw_from_log();
    let mut fresh = VgaConsole::new(0, 2);
    fresh.write_bytes(&b"\x1b[32mHi\nthere".to_vec());
    assert_eq!(c.cursor_position(), fresh.cursor_position());
    for py in 0..40usize {
        for px in 0..80usize {
            assert_eq!(c.pixel(px, py), fresh.pixel(px, py), "pixel ({px}, {py})");
        }
    }
    // Replaying does not change the cached log.
    assert_eq!(c.log_buffer_len(), 13);
}

#[test]
fn vga_set_font_scale_clamps_cursor() {
    let mut c = VgaConsole::new(0, 1);
    for _ in 0..200 {
        c.write_byte(b'x');
    }
    assert_eq!(c.cursor_position(), (200, 0));
    // At scale 150 the grid is a single 1-column, 1-row cell.
    c.set_font_scale(150);
    assert_eq!(c.cursor_position(), (0, 0));
}

#[test]
fn vga_clear_resets_screen_and_cursor() {
    let mut c = VgaConsole::new(0, 1);
    c.write_bytes(&b"zz".to_vec());
    c.clear();
    assert_eq!(c.cursor_position(), (0, 0));
    for py in 0..8usize {
        for px in 0..16usize {
            assert_eq!(c.pixel(px, py), 0);
        }
    }
}

#[test]
fn ansi_colour_code_table() {
    assert_eq!(ansi_to_rgb(30), Some(0x000000));
    assert_eq!(ansi_to_rgb(31), Some(0xCC0000));
    assert_eq!(ansi_to_rgb(37), Some(0xCCCCCC));
    assert_eq!(ansi_to_rgb(41), Some(0xCC0000));
    assert_eq!(ansi_to_rgb(90), Some(0x666666));
    assert_eq!(ansi_to_rgb(97), Some(0xFFFFFF));
    assert_eq!(ansi_to_rgb(100), Some(0x666666));
    assert_eq!(ansi_to_rgb(107), Some(0xFFFFFF));
    assert_eq!(ansi_to_rgb(29), None);
    assert_eq!(ansi_to_rgb(38), None);
    assert_eq!(ansi_to_rgb(89), None);
    assert_eq!(ansi_to_rgb(108), None);
}

#[test]
fn pl011_write_bytes_expands_newlines() {
    let out = pl011::write_bytes(&b"a\nb\n".to_vec());
    assert_eq!(out, b"a\r\nb\r\n".to_vec());
    assert_eq!(pl011::write_bytes(&b"\r".to_vec()), b"\r".to_vec());
    assert_eq!(pl011::write_bytes(&Vec::new()), Vec::<u8>::new());
}

#[test]
fn pl011_getchar_prefers_uart() {
    assert_eq!(pl011::getchar(Some(b'u'), Some(b'k')), Some(b'u'));
    assert_eq!(pl011::getchar(None, Some(b'k')), Some(b'k'));
    assert_eq!(pl011::getchar(Some(b'u'), None), Some(b'u'));
    assert_eq!(pl011::getchar(None, None), None);
}

#[test]
fn pl011_read_bytes_fills_from_available() {
    let mut buf = vec![0u8; 4];
    let n = pl011::read_bytes(&mut buf, &vec![9, 8]);
    assert_eq!(n, 2);
    assert_eq!(buf, vec![9, 8, 0, 0]);
    let mut buf2 = vec![0u8; 2];
    let n2 = pl011::read_bytes(&mut buf2, &vec![1, 2, 3, 4]);
    assert_eq!(n2, 2);
    assert_eq!(buf2, vec![1, 2]);
}

#[test]
fn pl011_irq_handler_echoes_on_receive() {
    assert_eq!(pl011::irq_handler(true, &vec![1, 2, 3]), vec![1, 2, 3]);
    assert_eq!(pl011::irq_handler(false, &vec![1, 2, 3]), Vec::<u8>::new());
}

#[test]
fn ps2_scancode_table() {
    assert_eq!(ps2_scancode_to_ascii(0x1E), Some(b'a'));
    assert_eq!(ps2_scancode_to_ascii(0x2C), Some(b'z'));
    assert_eq!(ps2_scancode_to_ascii(0x02), Some(b'1'));
    assert_eq!(ps2_scancode_to_ascii(0x0B), Some(b'0'));
    assert_eq!(ps2_scancode_to_ascii(0x1C), Some(b'\r'));
    assert_eq!(ps2_scancode_to_ascii(0x39), Some(b' '));
    assert_eq!(ps2_scancode_to_ascii(0x0E), Some(0x08));
    assert_eq!(ps2_scancode_to_ascii(0xFF), None);
    assert_eq!(ps2_scancode_to_ascii(0x9E), None);
}

#[test]
fn ps2_init_decisions() {
    assert!(device_absent(0xFF));
    assert!(!device_absent(0x01));
    assert!(is_ack(0xFA));
    assert!(!is_ack(0xFE));
}

#[test]
fn ps2_read_event_requires_output_full() {
    let kbd = Ps2Keyboard::new(0x9000_0000);
    assert!(kbd.pending_input_from(0x01));
    assert!(!kbd.pending_input_from(0x02));
    assert_eq!(
        kbd.read_event_from(0x01, 0x1E),
        Some(InputEvent::KeyPress(b'a'))
    );
    assert_eq!(kbd.read_event_from(0x00, 0x1E), None);
    assert_eq!(kbd.read_event_from(0x01, 0xFF), None);
}
