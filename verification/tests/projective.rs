use k256_arith::{AffinePoint, ProjectivePoint};

/// Affine coordinates of `[k] G` for `k = 1, 2, ..., 20`, as 32-byte
/// big-endian field elements.
const ADD_TEST_VECTORS: &[([u8; 32], [u8; 32])] = &[
    (
        [
            0x79, 0xbe, 0x66, 0x7e, 0xf9, 0xdc, 0xbb, 0xac,
            0x55, 0xa0, 0x62, 0x95, 0xce, 0x87, 0x0b, 0x07,
            0x02, 0x9b, 0xfc, 0xdb, 0x2d, 0xce, 0x28, 0xd9,
            0x59, 0xf2, 0x81, 0x5b, 0x16, 0xf8, 0x17, 0x98,
        ],
        [
            0x48, 0x3a, 0xda, 0x77, 0x26, 0xa3, 0xc4, 0x65,
            0x5d, 0xa4, 0xfb, 0xfc, 0x0e, 0x11, 0x08, 0xa8,
            0xfd, 0x17, 0xb4, 0x48, 0xa6, 0x85, 0x54, 0x19,
            0x9c, 0x47, 0xd0, 0x8f, 0xfb, 0x10, 0xd4, 0xb8,
        ],
    ),
    (
        [
            0xc6, 0x04, 0x7f, 0x94, 0x41, 0xed, 0x7d, 0x6d,
            0x30, 0x45, 0x40, 0x6e, 0x95, 0xc0, 0x7c, 0xd8,
            0x5c, 0x77, 0x8e, 0x4b, 0x8c, 0xef, 0x3c, 0xa7,
            0xab, 0xac, 0x09, 0xb9, 0x5c, 0x70, 0x9e, 0xe5,
        ],
        [
            0x1a, 0xe1, 0x68, 0xfe, 0xa6, 0x3d, 0xc3, 0x39,
            0xa3, 0xc5, 0x84, 0x19, 0x46, 0x6c, 0xea, 0xee,
            0xf7, 0xf6, 0x32, 0x65, 0x32, 0x66, 0xd0, 0xe1,
            0x23, 0x64, 0x31, 0xa9, 0x50, 0xcf, 0xe5, 0x2a,
        ],
    ),
    (
        [
            0xf9, 0x30, 0x8a, 0x01, 0x92, 0x58, 0xc3, 0x10,
            0x49, 0x34, 0x4f, 0x85, 0xf8, 0x9d, 0x52, 0x29,
            0xb5, 0x31, 0xc8, 0x45, 0x83, 0x6f, 0x99, 0xb0,
            0x86, 0x01, 0xf1, 0x13, 0xbc, 0xe0, 0x36, 0xf9,
        ],
        [
            0x38, 0x8f, 0x7b, 0x0f, 0x63, 0x2d, 0xe8, 0x14,
            0x0f, 0xe3, 0x37, 0xe6, 0x2a, 0x37, 0xf3, 0x56,
            0x65, 0x00, 0xa9, 0x99, 0x34, 0xc2, 0x23, 0x1b,
            0x6c, 0xb9, 0xfd, 0x75, 0x84, 0xb8, 0xe6, 0x72,
        ],
    ),
    (
        [
            0xe4, 0x93, 0xdb, 0xf1, 0xc1, 0x0d, 0x80, 0xf3,
            0x58, 0x1e, 0x49, 0x04, 0x93, 0x0b, 0x14, 0x04,
            0xcc, 0x6c, 0x13, 0x90, 0x0e, 0xe0, 0x75, 0x84,
            0x74, 0xfa, 0x94, 0xab, 0xe8, 0xc4, 0xcd, 0x13,
        ],
        [
            0x51, 0xed, 0x99, 0x3e, 0xa0, 0xd4, 0x55, 0xb7,
            0x56, 0x42, 0xe2, 0x09, 0x8e, 0xa5, 0x14, 0x48,
            0xd9, 0x67, 0xae, 0x33, 0xbf, 0xbd, 0xfe, 0x40,
            0xcf, 0xe9, 0x7b, 0xdc, 0x47, 0x73, 0x99, 0x22,
        ],
    ),
    (
        [
            0x2f, 0x8b, 0xde, 0x4d, 0x1a, 0x07, 0x20, 0x93,
            0x55, 0xb4, 0xa7, 0x25, 0x0a, 0x5c, 0x51, 0x28,
            0xe8, 0x8b, 0x84, 0xbd, 0xdc, 0x61, 0x9a, 0xb7,
            0xcb, 0xa8, 0xd5, 0x69, 0xb2, 0x40, 0xef, 0xe4,
        ],
        [
            0xd8, 0xac, 0x22, 0x26, 0x36, 0xe5, 0xe3, 0xd6,
            0xd4, 0xdb, 0xa9, 0xdd, 0xa6, 0xc9, 0xc4, 0x26,
            0xf7, 0x88, 0x27, 0x1b, 0xab, 0x0d, 0x68, 0x40,
            0xdc, 0xa8, 0x7d, 0x3a, 0xa6, 0xac, 0x62, 0xd6,
        ],
    ),
    (
        [
            0xff, 0xf9, 0x7b, 0xd5, 0x75, 0x5e, 0xee, 0xa4,
            0x20, 0x45, 0x3a, 0x14, 0x35, 0x52, 0x35, 0xd3,
            0x82, 0xf6, 0x47, 0x2f, 0x85, 0x68, 0xa1, 0x8b,
            0x2f, 0x05, 0x7a, 0x14, 0x60, 0x29, 0x75, 0x56,
        ],
        [
            0xae, 0x12, 0x77, 0x7a, 0xac, 0xfb, 0xb6, 0x20,
            0xf3, 0xbe, 0x96, 0x01, 0x7f, 0x45, 0xc5, 0x60,
            0xde, 0x80, 0xf0, 0xf6, 0x51, 0x8f, 0xe4, 0xa0,
            0x3c, 0x87, 0x0c, 0x36, 0xb0, 0x75, 0xf2, 0x97,
        ],
    ),
    (
        [
            0x5c, 0xbd, 0xf0, 0x64, 0x6e, 0x5d, 0xb4, 0xea,
            0xa3, 0x98, 0xf3, 0x65, 0xf2, 0xea, 0x7a, 0x0e,
            0x3d, 0x41, 0x9b, 0x7e, 0x03, 0x30, 0xe3, 0x9c,
            0xe9, 0x2b, 0xdd, 0xed, 0xca, 0xc4, 0xf9, 0xbc,
        ],
        [
            0x6a, 0xeb, 0xca, 0x40, 0xba, 0x25, 0x59, 0x60,
            0xa3, 0x17, 0x8d, 0x6d, 0x86, 0x1a, 0x54, 0xdb,
            0xa8, 0x13, 0xd0, 0xb8, 0x13, 0xfd, 0xe7, 0xb5,
            0xa5, 0x08, 0x26, 0x28, 0x08, 0x72, 0x64, 0xda,
        ],
    ),
    (
        [
            0x2f, 0x01, 0xe5, 0xe1, 0x5c, 0xca, 0x35, 0x1d,
            0xaf, 0xf3, 0x84, 0x3f, 0xb7, 0x0f, 0x3c, 0x2f,
            0x0a, 0x1b, 0xdd, 0x05, 0xe5, 0xaf, 0x88, 0x8a,
            0x67, 0x78, 0x4e, 0xf3, 0xe1, 0x0a, 0x2a, 0x01,
        ],
        [
            0x5c, 0x4d, 0xa8, 0xa7, 0x41, 0x53, 0x99, 0x49,
            0x29, 0x3d, 0x08, 0x2a, 0x13, 0x2d, 0x13, 0xb4,
            0xc2, 0xe2, 0x13, 0xd6, 0xba, 0x5b, 0x76, 0x17,
            0xb5, 0xda, 0x2c, 0xb7, 0x6c, 0xbd, 0xe9, 0x04,
        ],
    ),
    (
        [
            0xac, 0xd4, 0x84, 0xe2, 0xf0, 0xc7, 0xf6, 0x53,
            0x09, 0xad, 0x17, 0x8a, 0x9f, 0x55, 0x9a, 0xbd,
            0xe0, 0x97, 0x96, 0x97, 0x4c, 0x57, 0xe7, 0x14,
            0xc3, 0x5f, 0x11, 0x0d, 0xfc, 0x27, 0xcc, 0xbe,
        ],
        [
            0xcc, 0x33, 0x89, 0x21, 0xb0, 0xa7, 0xd9, 0xfd,
            0x64, 0x38, 0x09, 0x71, 0x76, 0x3b, 0x61, 0xe9,
            0xad, 0xd8, 0x88, 0xa4, 0x37, 0x5f, 0x8e, 0x0f,
            0x05, 0xcc, 0x26, 0x2a, 0xc6, 0x4f, 0x9c, 0x37,
        ],
    ),
    (
        [
            0xa0, 0x43, 0x4d, 0x9e, 0x47, 0xf3, 0xc8, 0x62,
            0x35, 0x47, 0x7c, 0x7b, 0x1a, 0xe6, 0xae, 0x5d,
            0x34, 0x42, 0xd4, 0x9b, 0x19, 0x43, 0xc2, 0xb7,
            0x52, 0xa6, 0x8e, 0x2a, 0x47, 0xe2, 0x47, 0xc7,
        ],
        [
            0x89, 0x3a, 0xba, 0x42, 0x54, 0x19, 0xbc, 0x27,
            0xa3, 0xb6, 0xc7, 0xe6, 0x93, 0xa2, 0x4c, 0x69,
            0x6f, 0x79, 0x4c, 0x2e, 0xd8, 0x77, 0xa1, 0x59,
            0x3c, 0xbe, 0xe5, 0x3b, 0x03, 0x73, 0x68, 0xd7,
        ],
    ),
    (
        [
            0x77, 0x4a, 0xe7, 0xf8, 0x58, 0xa9, 0x41, 0x1e,
            0x5e, 0xf4, 0x24, 0x6b, 0x70, 0xc6, 0x5a, 0xac,
            0x56, 0x49, 0x98, 0x0b, 0xe5, 0xc1, 0x78, 0x91,
            0xbb, 0xec, 0x17, 0x89, 0x5d, 0xa0, 0x08, 0xcb,
        ],
        [
            0xd9, 0x84, 0xa0, 0x32, 0xeb, 0x6b, 0x5e, 0x19,
            0x02, 0x43, 0xdd, 0x56, 0xd7, 0xb7, 0xb3, 0x65,
            0x37, 0x2d, 0xb1, 0xe2, 0xdf, 0xf9, 0xd6, 0xa8,
            0x30, 0x1d, 0x74, 0xc9, 0xc9, 0x53, 0xc6, 0x1b,
        ],
    ),
    (
        [
            0xd0, 0x11, 0x15, 0xd5, 0x48, 0xe7, 0x56, 0x1b,
            0x15, 0xc3, 0x8f, 0x00, 0x4d, 0x73, 0x46, 0x33,
            0x68, 0x7c, 0xf4, 0x41, 0x96, 0x20, 0x09, 0x5b,
            0xc5, 0xb0, 0xf4, 0x70, 0x70, 0xaf, 0xe8, 0x5a,
        ],
        [
            0xa9, 0xf3, 0x4f, 0xfd, 0xc8, 0x15, 0xe0, 0xd7,
            0xa8, 0xb6, 0x45, 0x37, 0xe1, 0x7b, 0xd8, 0x15,
            0x79, 0x23, 0x8c, 0x5d, 0xd9, 0xa8, 0x6d, 0x52,
            0x6b, 0x05, 0x1b, 0x13, 0xf4, 0x06, 0x23, 0x27,
        ],
    ),
    (
        [
            0xf2, 0x87, 0x73, 0xc2, 0xd9, 0x75, 0x28, 0x8b,
            0xc7, 0xd1, 0xd2, 0x05, 0xc3, 0x74, 0x86, 0x51,
            0xb0, 0x75, 0xfb, 0xc6, 0x61, 0x0e, 0x58, 0xcd,
            0xde, 0xed, 0xdf, 0x8f, 0x19, 0x40, 0x5a, 0xa8,
        ],
        [
            0x0a, 0xb0, 0x90, 0x2e, 0x8d, 0x88, 0x0a, 0x89,
            0x75, 0x82, 0x12, 0xeb, 0x65, 0xcd, 0xaf, 0x47,
            0x3a, 0x1a, 0x06, 0xda, 0x52, 0x1f, 0xa9, 0x1f,
            0x29, 0xb5, 0xcb, 0x52, 0xdb, 0x03, 0xed, 0x81,
        ],
    ),
    (
        [
            0x49, 0x9f, 0xdf, 0x9e, 0x89, 0x5e, 0x71, 0x9c,
            0xfd, 0x64, 0xe6, 0x7f, 0x07, 0xd3, 0x8e, 0x32,
            0x26, 0xaa, 0x7b, 0x63, 0x67, 0x89, 0x49, 0xe6,
            0xe4, 0x9b, 0x24, 0x1a, 0x60, 0xe8, 0x23, 0xe4,
        ],
        [
            0xca, 0xc2, 0xf6, 0xc4, 0xb5, 0x4e, 0x85, 0x51,
            0x90, 0xf0, 0x44, 0xe4, 0xa7, 0xb3, 0xd4, 0x64,
            0x46, 0x42, 0x79, 0xc2, 0x7a, 0x3f, 0x95, 0xbc,
            0xc6, 0x5f, 0x40, 0xd4, 0x03, 0xa1, 0x3f, 0x5b,
        ],
    ),
    (
        [
            0xd7, 0x92, 0x4d, 0x4f, 0x7d, 0x43, 0xea, 0x96,
            0x5a, 0x46, 0x5a, 0xe3, 0x09, 0x5f, 0xf4, 0x11,
            0x31, 0xe5, 0x94, 0x6f, 0x3c, 0x85, 0xf7, 0x9e,
            0x44, 0xad, 0xbc, 0xf8, 0xe2, 0x7e, 0x08, 0x0e,
        ],
        [
            0x58, 0x1e, 0x28, 0x72, 0xa8, 0x6c, 0x72, 0xa6,
            0x83, 0x84, 0x2e, 0xc2, 0x28, 0xcc, 0x6d, 0xef,
            0xea, 0x40, 0xaf, 0x2b, 0xd8, 0x96, 0xd3, 0xa5,
            0xc5, 0x04, 0xdc, 0x9f, 0xf6, 0xa2, 0x6b, 0x58,
        ],
    ),
    (
        [
            0xe6, 0x0f, 0xce, 0x93, 0xb5, 0x9e, 0x9e, 0xc5,
            0x30, 0x11, 0xaa, 0xbc, 0x21, 0xc2, 0x3e, 0x97,
            0xb2, 0xa3, 0x13, 0x69, 0xb8, 0x7a, 0x5a, 0xe9,
            0xc4, 0x4e, 0xe8, 0x9e, 0x2a, 0x6d, 0xec, 0x0a,
        ],
        [
            0xf7, 0xe3, 0x50, 0x73, 0x99, 0xe5, 0x95, 0x92,
            0x9d, 0xb9, 0x9f, 0x34, 0xf5, 0x79, 0x37, 0x10,
            0x12, 0x96, 0x89, 0x1e, 0x44, 0xd2, 0x3f, 0x0b,
            0xe1, 0xf3, 0x2c, 0xce, 0x69, 0x61, 0x68, 0x21,
        ],
    ),
    (
        [
            0xde, 0xfd, 0xea, 0x4c, 0xdb, 0x67, 0x77, 0x50,
            0xa4, 0x20, 0xfe, 0xe8, 0x07, 0xea, 0xcf, 0x21,
            0xeb, 0x98, 0x98, 0xae, 0x79, 0xb9, 0x76, 0x87,
            0x66, 0xe4, 0xfa, 0xa0, 0x4a, 0x2d, 0x4a, 0x34,
        ],
        [
            0x42, 0x11, 0xab, 0x06, 0x94, 0x63, 0x51, 0x68,
            0xe9, 0x97, 0xb0, 0xea, 0xd2, 0xa9, 0x3d, 0xae,
            0xce, 0xd1, 0xf4, 0xa0, 0x4a, 0x95, 0xc0, 0xf6,
            0xcf, 0xb1, 0x99, 0xf6, 0x9e, 0x56, 0xeb, 0x77,
        ],
    ),
    (
        [
            0x56, 0x01, 0x57, 0x0c, 0xb4, 0x7f, 0x23, 0x8d,
            0x2b, 0x02, 0x86, 0xdb, 0x4a, 0x99, 0x0f, 0xa0,
            0xf3, 0xba, 0x28, 0xd1, 0xa3, 0x19, 0xf5, 0xe7,
            0xcf, 0x55, 0xc2, 0xa2, 0x44, 0x4d, 0xa7, 0xcc,
        ],
        [
            0xc1, 0x36, 0xc1, 0xdc, 0x0c, 0xbe, 0xb9, 0x30,
            0xe9, 0xe2, 0x98, 0x04, 0x35, 0x89, 0x35, 0x1d,
            0x81, 0xd8, 0xe0, 0xbc, 0x73, 0x6a, 0xe2, 0xa1,
            0xf5, 0x19, 0x2e, 0x5e, 0x8b, 0x06, 0x1d, 0x58,
        ],
    ),
    (
        [
            0x2b, 0x4e, 0xa0, 0xa7, 0x97, 0xa4, 0x43, 0xd2,
            0x93, 0xef, 0x5c, 0xff, 0x44, 0x4f, 0x49, 0x79,
            0xf0, 0x6a, 0xcf, 0xeb, 0xd7, 0xe8, 0x6d, 0x27,
            0x74, 0x75, 0x65, 0x61, 0x38, 0x38, 0x5b, 0x6c,
        ],
        [
            0x85, 0xe8, 0x9b, 0xc0, 0x37, 0x94, 0x5d, 0x93,
            0xb3, 0x43, 0x08, 0x3b, 0x5a, 0x1c, 0x86, 0x13,
            0x1a, 0x01, 0xf6, 0x0c, 0x50, 0x26, 0x97, 0x63,
            0xb5, 0x70, 0xc8, 0x54, 0xe5, 0xc0, 0x9b, 0x7a,
        ],
    ),
    (
        [
            0x4c, 0xe1, 0x19, 0xc9, 0x6e, 0x2f, 0xa3, 0x57,
            0x20, 0x0b, 0x55, 0x9b, 0x2f, 0x7d, 0xd5, 0xa5,
            0xf0, 0x2d, 0x52, 0x90, 0xaf, 0xf7, 0x4b, 0x03,
            0xf3, 0xe4, 0x71, 0xb2, 0x73, 0x21, 0x1c, 0x97,
        ],
        [
            0x12, 0xba, 0x26, 0xdc, 0xb1, 0x0e, 0xc1, 0x62,
            0x5d, 0xa6, 0x1f, 0xa1, 0x0a, 0x84, 0x4c, 0x67,
            0x61, 0x62, 0x94, 0x82, 0x71, 0xd9, 0x69, 0x67,
            0x45, 0x02, 0x88, 0xee, 0x92, 0x33, 0xdc, 0x3a,
        ],
    ),
];

/// `(k, x, y)` with `(x, y)` the affine coordinates of `[k] G`.
const MUL_TEST_VECTORS: &[([u8; 32], [u8; 32], [u8; 32])] = &[
    (
        [
            0xaa, 0x5e, 0x28, 0xd6, 0xa9, 0x7a, 0x24, 0x79,
            0xa6, 0x55, 0x27, 0xf7, 0x29, 0x03, 0x11, 0xa3,
            0x62, 0x4d, 0x4c, 0xc0, 0xfa, 0x15, 0x78, 0x59,
            0x8e, 0xe3, 0xc2, 0x61, 0x3b, 0xf9, 0x95, 0x22,
        ],
        [
            0x34, 0xf9, 0x46, 0x0f, 0x0e, 0x4f, 0x08, 0x39,
            0x3d, 0x19, 0x2b, 0x3c, 0x51, 0x33, 0xa6, 0xba,
            0x09, 0x9a, 0xa0, 0xad, 0x9f, 0xd5, 0x4e, 0xbc,
            0xcf, 0xac, 0xdf, 0xa2, 0x39, 0xff, 0x49, 0xc6,
        ],
        [
            0x0b, 0x71, 0xea, 0x9b, 0xd7, 0x30, 0xfd, 0x89,
            0x23, 0xf6, 0xd2, 0x5a, 0x7a, 0x91, 0xe7, 0xdd,
            0x77, 0x28, 0xa9, 0x60, 0x68, 0x6c, 0xb5, 0xa9,
            0x01, 0xbb, 0x41, 0x9e, 0x0f, 0x2c, 0xa2, 0x32,
        ],
    ),
    (
        [
            0x7e, 0x2b, 0x89, 0x7b, 0x8c, 0xeb, 0xc6, 0x36,
            0x16, 0x63, 0xad, 0x41, 0x08, 0x35, 0x63, 0x98,
            0x26, 0xd5, 0x90, 0xf3, 0x93, 0xd9, 0x0a, 0x95,
            0x38, 0x88, 0x17, 0x35, 0x25, 0x6d, 0xfa, 0xe3,
        ],
        [
            0xd7, 0x4b, 0xf8, 0x44, 0xb0, 0x86, 0x24, 0x75,
            0x10, 0x3d, 0x96, 0xa6, 0x11, 0xcf, 0x2d, 0x89,
            0x84, 0x47, 0xe2, 0x88, 0xd3, 0x4b, 0x36, 0x0b,
            0xc8, 0x85, 0xcb, 0x8c, 0xe7, 0xc0, 0x05, 0x75,
        ],
        [
            0x13, 0x1c, 0x67, 0x0d, 0x41, 0x4c, 0x45, 0x46,
            0xb8, 0x8a, 0xc3, 0xff, 0x66, 0x46, 0x11, 0xb1,
            0xc3, 0x8c, 0xeb, 0x1c, 0x21, 0xd7, 0x63, 0x69,
            0xd7, 0xa7, 0xa0, 0x96, 0x9d, 0x61, 0xd9, 0x7d,
        ],
    ),
    (
        [
            0x64, 0x61, 0xe6, 0xdf, 0x0f, 0xe7, 0xdf, 0xd0,
            0x53, 0x29, 0xf4, 0x1b, 0xf7, 0x71, 0xb8, 0x65,
            0x78, 0x14, 0x3d, 0x4d, 0xd1, 0xf7, 0x86, 0x6f,
            0xb4, 0xca, 0x7e, 0x97, 0xc5, 0xfa, 0x94, 0x5d,
        ],
        [
            0xe8, 0xae, 0xcc, 0x37, 0x0a, 0xed, 0xd9, 0x53,
            0x48, 0x37, 0x19, 0xa1, 0x16, 0x71, 0x19, 0x63,
            0xce, 0x20, 0x1a, 0xc3, 0xeb, 0x21, 0xd3, 0xf3,
            0x25, 0x7b, 0xb4, 0x86, 0x68, 0xc6, 0xa7, 0x2f,
        ],
        [
            0xc2, 0x5c, 0xaf, 0x2f, 0x0e, 0xba, 0x1d, 0xdb,
            0x2f, 0x0f, 0x3f, 0x47, 0x86, 0x62, 0x99, 0xef,
            0x90, 0x78, 0x67, 0xb7, 0xd2, 0x7e, 0x95, 0xb3,
            0x87, 0x3b, 0xf9, 0x83, 0x97, 0xb2, 0x4e, 0xe1,
        ],
    ),
    (
        [
            0x37, 0x6a, 0x3a, 0x2c, 0xdc, 0xd1, 0x25, 0x81,
            0xef, 0xff, 0x13, 0xee, 0x4a, 0xd4, 0x4c, 0x40,
            0x44, 0xb8, 0xa0, 0x52, 0x4c, 0x42, 0x42, 0x2a,
            0x7e, 0x1e, 0x18, 0x1e, 0x4d, 0xee, 0xcc, 0xec,
        ],
        [
            0x14, 0x89, 0x0e, 0x61, 0xfc, 0xd4, 0xb0, 0xbd,
            0x92, 0xe5, 0xb3, 0x6c, 0x81, 0x37, 0x2c, 0xa6,
            0xfe, 0xd4, 0x71, 0xef, 0x3a, 0xa6, 0x0a, 0x3e,
            0x41, 0x5e, 0xe4, 0xfe, 0x98, 0x7d, 0xab, 0xa1,
        ],
        [
            0x29, 0x7b, 0x85, 0x8d, 0x9f, 0x75, 0x2a, 0xb4,
            0x2d, 0x3b, 0xca, 0x67, 0xee, 0x0e, 0xb6, 0xdc,
            0xd1, 0xc2, 0xb7, 0xb0, 0xdb, 0xe2, 0x33, 0x97,
            0xe6, 0x6a, 0xdc, 0x27, 0x22, 0x63, 0xf9, 0x82,
        ],
    ),
    (
        [
            0x1b, 0x22, 0x64, 0x4a, 0x7b, 0xe0, 0x26, 0x54,
            0x88, 0x10, 0xc3, 0x78, 0xd0, 0xb2, 0x99, 0x4e,
            0xef, 0xa6, 0xd2, 0xb9, 0x88, 0x18, 0x03, 0xcb,
            0x02, 0xce, 0xff, 0x86, 0x52, 0x87, 0xd1, 0xb9,
        ],
        [
            0xf7, 0x3c, 0x65, 0xea, 0xd0, 0x1c, 0x51, 0x26,
            0xf2, 0x8f, 0x44, 0x2d, 0x08, 0x76, 0x89, 0xbf,
            0xa0, 0x8e, 0x12, 0x76, 0x3e, 0x0c, 0xec, 0x1d,
            0x35, 0xb0, 0x17, 0x51, 0xfd, 0x73, 0x5e, 0xd3,
        ],
        [
            0xf4, 0x49, 0xa8, 0x37, 0x69, 0x06, 0x48, 0x2a,
            0x84, 0xed, 0x01, 0x47, 0x9b, 0xd1, 0x88, 0x82,
            0xb9, 0x19, 0xc1, 0x40, 0xd6, 0x38, 0x30, 0x7f,
            0x0c, 0x09, 0x34, 0xba, 0x12, 0x59, 0x0b, 0xde,
        ],
    ),
];

/// The scalar `k` as 32 big-endian bytes.
fn scalar_from_u32(k: u32) -> [u8; 32] {
    let mut out = [0u8; 32];
    out[28..].copy_from_slice(&k.to_be_bytes());
    out
}

#[test]
fn affine_to_projective() {
    let basepoint_affine = AffinePoint::generator();
    let basepoint_projective = ProjectivePoint::generator();

    assert_eq!(ProjectivePoint::from(basepoint_affine), basepoint_projective);
    assert_eq!(basepoint_projective.to_affine(), basepoint_affine);
    assert!(!basepoint_projective.to_affine().is_identity());

    assert!(ProjectivePoint::identity().to_affine().is_identity());
}

#[test]
fn projective_identity_addition() {
    let identity = ProjectivePoint::identity();
    let generator = ProjectivePoint::generator();

    assert_eq!(identity.add(&generator), generator);
    assert_eq!(generator.add(&identity), generator);
}

#[test]
fn projective_mixed_addition() {
    let identity = ProjectivePoint::identity();
    let basepoint_affine = AffinePoint::generator();
    let basepoint_projective = ProjectivePoint::generator();

    assert_eq!(identity.add_mixed(&basepoint_affine), basepoint_projective);
    assert_eq!(
        basepoint_projective.add_mixed(&basepoint_affine),
        basepoint_projective.add(&basepoint_projective)
    );
}

#[test]
fn test_vector_repeated_add() {
    let generator = ProjectivePoint::generator();
    let mut p = generator;

    for i in 0..ADD_TEST_VECTORS.len() {
        let affine = p.to_affine();

        let (expected_x, expected_y) = ADD_TEST_VECTORS[i];
        assert_eq!(affine.x.to_bytes(), expected_x);
        assert_eq!(affine.y.to_bytes(), expected_y);

        p.add_assign(&generator);
    }
}

#[test]
fn test_vector_repeated_add_mixed() {
    let generator = AffinePoint::generator();
    let mut p = ProjectivePoint::generator();

    for i in 0..ADD_TEST_VECTORS.len() {
        let affine = p.to_affine();

        let (expected_x, expected_y) = ADD_TEST_VECTORS[i];
        assert_eq!(affine.x.to_bytes(), expected_x);
        assert_eq!(affine.y.to_bytes(), expected_y);

        p.add_assign_affine(&generator);
    }
}

#[test]
fn test_vector_add_mixed_identity() {
    let generator = ProjectivePoint::generator();
    let p0 = generator.add(&ProjectivePoint::identity());
    let p1 = generator.add_mixed(&AffinePoint::identity());
    assert_eq!(p0, p1);
}

#[test]
fn test_vector_double_generator() {
    let generator = ProjectivePoint::generator();
    let mut p = generator;

    for i in 0..2 {
        let affine = p.to_affine();

        let (expected_x, expected_y) = ADD_TEST_VECTORS[i];
        assert_eq!(affine.x.to_bytes(), expected_x);
        assert_eq!(affine.y.to_bytes(), expected_y);

        p = p.double();
    }
}

#[test]
fn projective_add_vs_double() {
    let generator = ProjectivePoint::generator();

    let r1 = generator.add(&generator);
    let r2 = generator.double();
    assert_eq!(r1, r2);

    let r1 = generator.add(&generator).add(&generator.add(&generator));
    let r2 = generator.double().double();
    assert_eq!(r1, r2);
}

#[test]
fn projective_add_and_sub() {
    let basepoint_affine = AffinePoint::generator();
    let basepoint_projective = ProjectivePoint::generator();

    assert_eq!(
        basepoint_projective.add(&basepoint_projective).sub(&basepoint_projective),
        basepoint_projective
    );
    assert_eq!(
        basepoint_projective.add_mixed(&basepoint_affine).sub_mixed(&basepoint_affine),
        basepoint_projective
    );
}

#[test]
fn projective_double_and_sub() {
    let generator = ProjectivePoint::generator();
    assert_eq!(generator.double().sub(&generator), generator);
}

#[test]
fn test_vector_scalar_mult() {
    let generator = ProjectivePoint::generator();

    let small = ADD_TEST_VECTORS
        .iter()
        .enumerate()
        .map(|(k, coords)| (scalar_from_u32(k as u32 + 1), *coords));
    let large = MUL_TEST_VECTORS.iter().map(|&(k, x, y)| (k, (x, y)));
    for (k, coords) in small.chain(large) {
        let res = generator.mul(&k).to_affine();
        assert_eq!(res.x.to_bytes(), coords.0);
        assert_eq!(res.y.to_bytes(), coords.1);
    }
}
