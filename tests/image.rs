use sfs_image::commands::{handle_build, runner_exit_code, Build};
use sfs_image::geometry::{checksum, encode_superblock, Geometry};
use sfs_image::image::{check_name, create_image, get_timestamp, ImageError};
use sfs_image::index::{new_index_volume, new_starter_marker};

const NAME: &[u8] = b"Volume Identifier";

fn floppy_image(time_stamp: u64) -> Vec<u8> {
    create_image(&Geometry::floppy(), NAME, time_stamp).unwrap()
}

fn read_c_string(bytes: &[u8]) -> Vec<u8> {
    bytes.iter().take_while(|b| **b != 0).copied().collect()
}

#[test]
fn floppy_total_blocks() {
    let g = Geometry::floppy();
    assert_eq!(g.total_blocks(), 2880);
    assert_eq!(g.block_size(), 2);
}

#[test]
fn image_length_is_media_size() {
    assert_eq!(floppy_image(0).len(), 1_474_560);
}

#[test]
fn magic_and_version_in_superblock() {
    let image = floppy_image(12345);
    assert_eq!(&image[0x1AC..0x1AF], &[0x53, 0x46, 0x53]);
    assert_eq!(image[0x1AF], 0x10);
}

#[test]
fn checksum_round_trips() {
    let image = floppy_image(99);
    let magic = [image[0x1AC], image[0x1AD], image[0x1AE]];
    let version = image[0x1AF];
    let total_blocks = u64::from_le_bytes(image[0x1B0..0x1B8].try_into().unwrap());
    let reserved = u32::from_le_bytes(image[0x1B8..0x1BC].try_into().unwrap());
    assert_eq!(image[0x1BD], checksum(&magic, version, total_blocks, reserved));
}

#[test]
fn checksum_exact_value() {
    assert_eq!(checksum(&[0x53, 0x46, 0x53], 0x10, 2880, 5), 0xEE);
}

#[test]
fn checksum_sums_before_masking() {
    // 255 * 4 + (64 + 256 + 1024 + 4096) + (1 + 0) = 6461, low byte 0x3D
    assert_eq!(checksum(&[0xFF, 0xFF, 0xFF], 0xFF, 4096, 4), 0x3D);
}

#[test]
fn index_area_tags() {
    let image = floppy_image(1);
    let tail = &image[image.len() - 128..];
    assert_eq!(tail[0], 0x02);
    assert!(tail[1..64].iter().all(|b| *b == 0x10));
    assert_eq!(tail[64], 0x01);
    assert_eq!(&tail[65..68], &[0, 0, 0]);
}

#[test]
fn volume_name_reads_back() {
    let image = floppy_image(5);
    let entry = &image[image.len() - 64..];
    assert_eq!(read_c_string(&entry[12..]), b"Volume Identifier".to_vec());
    assert!(entry[12 + NAME.len()..].iter().all(|b| *b == 0));
}

#[test]
fn superblock_scenario() {
    let time_stamp: u64 = 0x0102_0304_0506_0708;
    let image = floppy_image(time_stamp);
    let mut expected: Vec<u8> = Vec::new();
    expected.extend_from_slice(&time_stamp.to_le_bytes());
    expected.extend_from_slice(&[0; 8]);
    expected.extend_from_slice(&[0x80, 0, 0, 0, 0, 0, 0, 0]);
    expected.extend_from_slice(&[0x53, 0x46, 0x53]);
    expected.push(0x10);
    expected.extend_from_slice(&[0x40, 0x0B, 0, 0, 0, 0, 0, 0]);
    expected.extend_from_slice(&[0x05, 0, 0, 0]);
    expected.push(0x02);
    expected.push(0xEE);
    assert_eq!(&image[0x194..0x1BE], expected.as_slice());
    assert_eq!(encode_superblock(&Geometry::floppy(), time_stamp), expected);
    assert!(image[..0x194].iter().all(|b| *b == 0));
    assert!(image[0x1BE..image.len() - 128].iter().all(|b| *b == 0));
}

#[test]
fn only_timestamp_fields_vary() {
    let a = floppy_image(0x1111);
    let b = floppy_image(0xFFFF_0000_2222);
    let n = a.len();
    assert_eq!(n, b.len());
    for i in 0..n {
        let in_superblock_stamp = (0x194..0x19C).contains(&i);
        let in_entry_stamp = (n - 60..n - 52).contains(&i);
        if !in_superblock_stamp && !in_entry_stamp {
            assert_eq!(a[i], b[i], "byte {}", i);
        }
    }
    assert_eq!(&a[0x194..0x19C], &0x1111u64.to_le_bytes());
    assert_eq!(&b[n - 60..n - 52], &0xFFFF_0000_2222u64.to_le_bytes());
    assert_ne!(a, b);
    assert_eq!(a, floppy_image(0x1111));
}

#[test]
fn name_too_long_rejected() {
    let name = vec![b'a'; 52];
    assert_eq!(create_image(&Geometry::floppy(), &name, 0), Err(ImageError::NameTooLong));
    assert_eq!(check_name(&name), Err(ImageError::NameTooLong));
}

#[test]
fn longest_name_accepted() {
    let name = vec![b'z'; 51];
    let image = create_image(&Geometry::floppy(), &name, 0).unwrap();
    let entry = &image[image.len() - 64..];
    assert_eq!(read_c_string(&entry[12..]), name);
    assert_eq!(entry[63], 0);
}

#[test]
fn name_with_nul_rejected() {
    assert_eq!(create_image(&Geometry::floppy(), b"ab\0c", 0), Err(ImageError::NameContainsNul));
}

#[test]
fn empty_name_accepted() {
    let image = create_image(&Geometry::floppy(), b"", 0).unwrap();
    assert!(image[image.len() - 52..].iter().all(|b| *b == 0));
}

#[test]
fn geometry_validation() {
    let magic = [0x53, 0x46, 0x53];
    assert!(Geometry::new(0, 4096, 5, 0x10, magic).is_none());
    assert!(Geometry::new(512, 4000, 5, 0x10, magic).is_none());
    assert!(Geometry::new(1, 0x1BE + 127, 5, 0x10, magic).is_none());
    assert!(Geometry::new(1, 0x1BE + 128, 5, 0x10, magic).is_some());
    assert!(Geometry::new(512, 1_474_560, 5, 0x10, magic).is_some());
}

#[test]
fn other_geometry_image() {
    let g = Geometry::new(1024, 8192, 7, 0x20, [0x41, 0x42, 0x43]).unwrap();
    let image = create_image(&g, b"disk", 3).unwrap();
    assert_eq!(image.len(), 8192);
    assert_eq!(&image[0x1AC..0x1B0], &[0x41, 0x42, 0x43, 0x20]);
    assert_eq!(&image[0x1B0..0x1B8], &8u64.to_le_bytes());
    assert_eq!(&image[0x1B8..0x1BC], &7u32.to_le_bytes());
    assert_eq!(image[0x1BC], 4);
    assert_eq!(image[0x1BD], checksum(&[0x41, 0x42, 0x43], 0x20, 8, 7));
    assert_eq!(image[8192 - 128], 0x02);
    assert_eq!(image[8192 - 64], 0x01);
}

#[test]
fn starter_marker_layout() {
    let m = new_starter_marker();
    assert_eq!(m.len(), 64);
    assert_eq!(m[0], 0x02);
    assert!(m[1..].iter().all(|b| *b == 0x10));
}

#[test]
fn index_volume_layout() {
    let v = new_index_volume(0x0A0B_0C0D, b"Volume Identifier");
    assert_eq!(v.len(), 64);
    assert_eq!(&v[0..4], &[0x01, 0, 0, 0]);
    assert_eq!(&v[4..12], &[0x0D, 0x0C, 0x0B, 0x0A, 0, 0, 0, 0]);
    assert_eq!(&v[12..29], b"Volume Identifier");
    assert!(v[29..].iter().all(|b| *b == 0));
}

#[test]
fn timestamp_divisor_chain() {
    assert_eq!(get_timestamp(0), 0);
    assert_eq!(get_timestamp(15259 * 65536 - 1), 0);
    assert_eq!(get_timestamp(15259 * 65536 * 3 + 5), 3);
    // 1_700_000_000 s since the epoch
    assert_eq!(get_timestamp(1_700_000_000_000_000_000), 1_700_000_000_000_000_000 / 15259 / 65536);
    assert_eq!(get_timestamp(1_700_000_000_000_000_000), 1_699_976_499);
    assert_eq!(get_timestamp(u128::MAX), (u128::MAX / 15259 / 65536) as u64);
}

#[test]
fn build_command_succeeds() {
    assert_eq!(handle_build(Build { debug: true }), 0);
}

#[test]
fn runner_exit_codes() {
    assert_eq!(runner_exit_code(Some(11)), 0);
    assert_eq!(runner_exit_code(Some(0)), 1);
    assert_eq!(runner_exit_code(Some(9)), 1);
    assert_eq!(runner_exit_code(None), 1);
}
