use pgs::{
    byte_to_int, calc_blue, calc_gray, calc_green, calc_red, decode_rle, get_argb,
    get_argb_color, get_gray_color, get_pixel_color, PgsOdsSegment, PgsOdsSequenceFlag,
    PgsPdsSegment, PgsPdsSegmentPaletteEntry, PgsSegmentHeader, PgsSegmentType,
};

fn pds_header() -> PgsSegmentHeader {
    PgsSegmentHeader {
        segment_type: PgsSegmentType::PDS,
        segment_length: 13,
        presentation_timestamp: 0,
        decoding_timestamp: 0,
    }
}

#[test]
fn test_calc_red() {
    assert_eq!(calc_red(128, 128), 128); // Middle YCbCr value for red
    assert_eq!(calc_red(255, 128), 255); // Max luminance (Y) value, results in max red
    assert_eq!(calc_red(0, 128), 0); // Min luminance (Y) value, results in min red
}

#[test]
fn test_calc_green() {
    assert_eq!(calc_green(128, 128, 128), 128); // Middle YCbCr value for green
    assert_eq!(calc_green(255, 128, 128), 255); // Max luminance (Y) value, results in max green
    assert_eq!(calc_green(0, 128, 128), 0); // Min luminance (Y) value, results in min green
}

#[test]
fn test_calc_blue() {
    assert_eq!(calc_blue(128, 128), 128); // Middle YCbCr value for blue
    assert_eq!(calc_blue(255, 128), 255); // Max luminance (Y) value, results in max blue
    assert_eq!(calc_blue(0, 128), 0); // Min luminance (Y) value, results in min blue
}

#[test]
fn test_calc_gray() {
    // 1: No transparency (255), full luminance (255)
    let result = calc_gray(0, 255);
    assert_eq!(result, 0xFFFFFF, "Expected white color for no transparency and full luminance");

    // 2: Full transparency (255), full luminance (255)
    let result = calc_gray(255, 255);
    assert_eq!(result, 0x000000, "Expected black color for full transparency and full luminance");

    // 3: Partial transparency (128), full luminance (255)
    let result = calc_gray(128, 255);
    assert_eq!(result, 0x7F7F7F, "Expected gray color for half transparency and full luminance");

    // 4: No transparency (0), no luminance (0)
    let result = calc_gray(0, 0);
    assert_eq!(result, 0xFFFFFF, "Expected white color for no transparency and no luminance");

    // 5: Partial transparency (128), partial luminance (128)
    let result = calc_gray(128, 128);
    assert_eq!(
        result, 0xBFBFBF,
        "Expected a light gray color for partial transparency and partial luminance"
    );
}

#[test]
fn test_get_argb() {
    let argb = get_argb(128, 128, 128, 255); // Middle values for YCbCr with full transparency
    assert_eq!(argb, 0xFF808080); // Should return the ARGB value (255 alpha, mid gray color)
}

#[test]
fn test_get_gray_color() {
    let pds_segment = PgsPdsSegment {
        header: pds_header(),
        palette_id: 0,
        palette_version_number: 0,
        palette_entries: vec![
            PgsPdsSegmentPaletteEntry {
                palette_entry_id: 0,
                transparency: 0,
                luminance: 255,
                color_difference_blue: 0,
                color_difference_red: 0,
            }, // White color
            PgsPdsSegmentPaletteEntry {
                palette_entry_id: 0,
                transparency: 255,
                luminance: 255,
                color_difference_blue: 0,
                color_difference_red: 0,
            }, // Black color
            PgsPdsSegmentPaletteEntry {
                palette_entry_id: 0,
                transparency: 128,
                luminance: 128,
                color_difference_blue: 0,
                color_difference_red: 0,
            }, // Gray color
        ],
    };

    // 1: Valid index, expecting white color
    let result = get_gray_color(0, &pds_segment);
    assert_eq!(result, 0xFFFFFF, "Expected white color for palette index 0");

    // 2: Valid index, expecting black color
    let result = get_gray_color(1, &pds_segment);
    assert_eq!(result, 0x000000, "Expected black color for palette index 1");

    // 3: Valid index, expecting gray color
    let result = get_gray_color(2, &pds_segment);
    assert_eq!(result, 0xBFBFBF, "Expected gray color for palette index 2");

    // 4: Invalid index, should return white (0xFFFFFF)
    let result = get_gray_color(3, &pds_segment);
    assert_eq!(result, 0xFFFFFF, "Expected default white color for out of bounds index");
}

#[test]
fn test_rle_decoding() {
    let pds_segment = PgsPdsSegment {
        header: pds_header(),
        palette_id: 0,
        palette_version_number: 0,
        palette_entries: vec![
            PgsPdsSegmentPaletteEntry {
                palette_entry_id: 0,
                transparency: 0,
                luminance: 50,
                color_difference_blue: 100,
                color_difference_red: 100,
            },
            PgsPdsSegmentPaletteEntry {
                palette_entry_id: 0,
                transparency: 0,
                luminance: 150,
                color_difference_blue: 200,
                color_difference_red: 200,
            },
        ],
    };

    let ods_segment = PgsOdsSegment {
        header: PgsSegmentHeader {
            segment_type: PgsSegmentType::ODS,
            segment_length: 13,
            presentation_timestamp: 0,
            decoding_timestamp: 0,
        },
        object_id: 0,
        object_version_number: 0,
        last_in_sequence_flag: PgsOdsSequenceFlag::Unknown,
        width: 5,
        height: 2,
        object_data_length: 0,
        object_data: vec![0x00, 0x00, 0x01, 0x02, 0x01, 0x03, 0x02],
    };

    let result = decode_rle(&pds_segment, &ods_segment, false).unwrap();

    assert_eq!(result.len(), 2);
    assert_eq!(result[0].len(), 5);

    let expected = vec![
        vec![0x0, 0x0, 0x0, 0x0, 0x0],                          // Row 1
        vec![0xFA49FF, 0xFFFFFF, 0xFA49FF, 0xFFFFFF, 0xFFFFFF], // Row 2
    ];

    assert_eq!(result, expected, "Decoded RLE data does not match the expected output");
}

// The colour conversion agrees with a direct single-precision evaluation
// of the BT.601 formulas on every (Y, Cr) input.
#[test]
fn red_matches_single_precision_everywhere() {
    for y in 0..=255u16 {
        for cr in 0..=255u16 {
            let f = (y as f32) + 1.40200 * (cr as f32 - 128.0);
            let expected = f.clamp(0.0, 255.0) as u8;
            assert_eq!(calc_red(y as u8, cr as u8), expected, "y={} cr={}", y, cr);
        }
    }
}

#[test]
fn blue_matches_single_precision_everywhere() {
    for y in 0..=255u16 {
        for cb in 0..=255u16 {
            let f = (y as f32) + 1.77200 * (cb as f32 - 128.0);
            let expected = f.clamp(0.0, 255.0) as u8;
            assert_eq!(calc_blue(y as u8, cb as u8), expected, "y={} cb={}", y, cb);
        }
    }
}

// Greens are checked on all (Y, Cb) pairs against a lattice of Cr values.
#[test]
fn green_matches_single_precision_lattice() {
    let crs = [0u16, 1, 27, 63, 64, 100, 127, 128, 129, 170, 191, 192, 228, 254, 255];
    for y in 0..=255u16 {
        for cb in 0..=255u16 {
            for &cr in crs.iter() {
                let f = (y as f32) - 0.34414 * (cb as f32 - 128.0) - 0.71414 * (cr as f32 - 128.0);
                let expected = f.clamp(0.0, 255.0) as u8;
                assert_eq!(
                    calc_green(y as u8, cb as u8, cr as u8),
                    expected,
                    "y={} cb={} cr={}",
                    y,
                    cb,
                    cr
                );
            }
        }
    }
}

#[test]
fn green_matches_single_precision_lattice_swapped() {
    let cbs = [0u16, 1, 27, 63, 64, 100, 127, 128, 129, 170, 191, 192, 228, 254, 255];
    for y in 0..=255u16 {
        for cr in 0..=255u16 {
            for &cb in cbs.iter() {
                let f = (y as f32) - 0.34414 * (cb as f32 - 128.0) - 0.71414 * (cr as f32 - 128.0);
                let expected = f.clamp(0.0, 255.0) as u8;
                assert_eq!(
                    calc_green(y as u8, cb as u8, cr as u8),
                    expected,
                    "y={} cb={} cr={}",
                    y,
                    cb,
                    cr
                );
            }
        }
    }
}

// Colour conversion is pure: the same inputs give the same outputs.
#[test]
fn argb_conversion_is_pure() {
    for &(y, cb, cr, t) in [(128u8, 64u8, 200u8, 33u8), (0, 0, 0, 0), (255, 255, 255, 255)].iter()
    {
        let first = get_argb(y, cb, cr, t);
        let second = get_argb(y, cb, cr, t);
        assert_eq!(first, second);
    }
}

// The YCbCr midpoint with full alpha packs to opaque mid-gray.
#[test]
fn argb_midpoint_scenario() {
    assert_eq!(get_argb(128, 128, 128, 255), 0xFF808080);
    assert_eq!(calc_red(255, 128), 255);
    assert_eq!(calc_red(0, 128), 0);
    assert_eq!(calc_red(128, 128), 128);
}

// A palette lookup past the end of the palette is white in both modes.
#[test]
fn out_of_bounds_lookup_is_white_in_both_modes() {
    let pds = PgsPdsSegment {
        header: pds_header(),
        palette_id: 0,
        palette_version_number: 0,
        palette_entries: vec![PgsPdsSegmentPaletteEntry {
            palette_entry_id: 0,
            transparency: 10,
            luminance: 20,
            color_difference_blue: 30,
            color_difference_red: 40,
        }],
    };
    assert_eq!(get_gray_color(1, &pds), 0xFFFFFF);
    assert_eq!(get_argb_color(1, &pds), 0xFFFFFF);
    assert_eq!(get_pixel_color(1, &pds, true), 0xFFFFFF);
    assert_eq!(get_pixel_color(1, &pds, false), 0xFFFFFF);
    assert_eq!(get_pixel_color(7, &pds, false), 0xFFFFFF);
}

// Gray formula: g replicated over the three channels, g = 255 - t*y/255.
#[test]
fn gray_follows_replication_formula() {
    for &(t, y) in [(0u8, 0u8), (0, 255), (255, 255), (128, 255), (128, 128), (17, 230)].iter() {
        let g = 255 - (t as u32) * (y as u32) / 255;
        assert_eq!(calc_gray(t, y), g | g << 8 | g << 16, "t={} y={}", t, y);
    }
    // Zero transparency is white for every luminance.
    for y in 0..=255u16 {
        assert_eq!(calc_gray(0, y as u8), 0xFFFFFF);
    }
    // Full transparency is black only at full luminance.
    assert_eq!(calc_gray(255, 255), 0x000000);
    assert_eq!(calc_gray(255, 0), 0xFFFFFF);
}

#[test]
fn byte_to_int_widens() {
    assert_eq!(byte_to_int(0), 0u32);
    assert_eq!(byte_to_int(0x80), 128u32);
    assert_eq!(byte_to_int(0xFF), 255u32);
}

// An RLE payload of end-of-line codes alone decodes to an all-zero matrix.
#[test]
fn all_zero_payload_decodes_to_zero_matrix() {
    let pds = PgsPdsSegment {
        header: pds_header(),
        palette_id: 0,
        palette_version_number: 0,
        palette_entries: vec![PgsPdsSegmentPaletteEntry {
            palette_entry_id: 0,
            transparency: 1,
            luminance: 2,
            color_difference_blue: 3,
            color_difference_red: 4,
        }],
    };
    let ods = PgsOdsSegment {
        header: PgsSegmentHeader {
            segment_type: PgsSegmentType::ODS,
            segment_length: 13,
            presentation_timestamp: 0,
            decoding_timestamp: 0,
        },
        object_id: 0,
        object_version_number: 0,
        last_in_sequence_flag: PgsOdsSequenceFlag::Unknown,
        width: 3,
        height: 2,
        object_data_length: 0,
        object_data: vec![0x00, 0x00, 0x00, 0x00, 0x00, 0x00],
    };
    let gray_pixels = decode_rle(&pds, &ods, true).unwrap();
    let argb_pixels = decode_rle(&pds, &ods, false).unwrap();
    let expected = vec![vec![0u32, 0, 0], vec![0u32, 0, 0]];
    assert_eq!(gray_pixels, expected);
    assert_eq!(argb_pixels, expected);
}

// A long run code paints the whole row with one palette colour.
#[test]
fn long_run_code_paints_row() {
    let pds = PgsPdsSegment {
        header: pds_header(),
        palette_id: 0,
        palette_version_number: 0,
        palette_entries: vec![
            PgsPdsSegmentPaletteEntry {
                palette_entry_id: 0,
                transparency: 0,
                luminance: 0,
                color_difference_blue: 128,
                color_difference_red: 128,
            },
            PgsPdsSegmentPaletteEntry {
                palette_entry_id: 1,
                transparency: 0,
                luminance: 255,
                color_difference_blue: 128,
                color_difference_red: 128,
            },
        ],
    };
    let ods = PgsOdsSegment {
        header: PgsSegmentHeader {
            segment_type: PgsSegmentType::ODS,
            segment_length: 13,
            presentation_timestamp: 0,
            decoding_timestamp: 0,
        },
        object_id: 0,
        object_version_number: 0,
        last_in_sequence_flag: PgsOdsSequenceFlag::Both,
        width: 300,
        height: 1,
        object_data_length: 0,
        // 0x00, 0x40|1, 0x2C, 0x01: run of 300 pixels of palette index 1
        object_data: vec![0x00, 0xC1, 0x2C, 0x01],
    };
    let pixels = decode_rle(&pds, &ods, true).unwrap();
    assert_eq!(pixels.len(), 1);
    assert_eq!(pixels[0].len(), 300);
    // entry 1: g = 255 - 0*255/255 = 255 -> white
    assert!(pixels[0].iter().all(|&p| p == 0xFFFFFF));
}

// A payload cut short in the middle of a code reports the end of data.
#[test]
fn truncated_payload_reports_end_of_data() {
    let pds = PgsPdsSegment {
        header: pds_header(),
        palette_id: 0,
        palette_version_number: 0,
        palette_entries: vec![],
    };
    let ods = PgsOdsSegment {
        header: PgsSegmentHeader {
            segment_type: PgsSegmentType::ODS,
            segment_length: 13,
            presentation_timestamp: 0,
            decoding_timestamp: 0,
        },
        object_id: 0,
        object_version_number: 0,
        last_in_sequence_flag: PgsOdsSequenceFlag::Unknown,
        width: 4,
        height: 1,
        object_data_length: 0,
        // 0x00 followed by a long-run marker that needs one more byte
        object_data: vec![0x00, 0x41],
    };
    let r = decode_rle(&pds, &ods, false);
    assert!(matches!(r, Err(pgs::Error::EndOfData)));
}
