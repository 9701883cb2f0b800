//! The AES substitution table: the fixed 256-entry S-box, as a specification
//! function and as an executable lookup proven against it.
use vstd::prelude::*;

verus! {

/// The AES S-box: the fixed nonlinear byte substitution of FIPS 197.
pub open spec fn sbox(v: u8) -> u8 {
    if v == 0x00 { 0x63
    } else if v == 0x01 { 0x7c
    } else if v == 0x02 { 0x77
    } else if v == 0x03 { 0x7b
    } else if v == 0x04 { 0xf2
    } else if v == 0x05 { 0x6b
    } else if v == 0x06 { 0x6f
    } else if v == 0x07 { 0xc5
    } else if v == 0x08 { 0x30
    } else if v == 0x09 { 0x01
    } else if v == 0x0a { 0x67
    } else if v == 0x0b { 0x2b
    } else if v == 0x0c { 0xfe
    } else if v == 0x0d { 0xd7
    } else if v == 0x0e { 0xab
    } else if v == 0x0f { 0x76
    } else if v == 0x10 { 0xca
    } else if v == 0x11 { 0x82
    } else if v == 0x12 { 0xc9
    } else if v == 0x13 { 0x7d
    } else if v == 0x14 { 0xfa
    } else if v == 0x15 { 0x59
    } else if v == 0x16 { 0x47
    } else if v == 0x17 { 0xf0
    } else if v == 0x18 { 0xad
    } else if v == 0x19 { 0xd4
    } else if v == 0x1a { 0xa2
    } else if v == 0x1b { 0xaf
    } else if v == 0x1c { 0x9c
    } else if v == 0x1d { 0xa4
    } else if v == 0x1e { 0x72
    } else if v == 0x1f { 0xc0
    } else if v == 0x20 { 0xb7
    } else if v == 0x21 { 0xfd
    } else if v == 0x22 { 0x93
    } else if v == 0x23 { 0x26
    } else if v == 0x24 { 0x36
    } else if v == 0x25 { 0x3f
    } else if v == 0x26 { 0xf7
    } else if v == 0x27 { 0xcc
    } else if v == 0x28 { 0x34
    } else if v == 0x29 { 0xa5
    } else if v == 0x2a { 0xe5
    } else if v == 0x2b { 0xf1
    } else if v == 0x2c { 0x71
    } else if v == 0x2d { 0xd8
    } else if v == 0x2e { 0x31
    } else if v == 0x2f { 0x15
    } else if v == 0x30 { 0x04
    } else if v == 0x31 { 0xc7
    } else if v == 0x32 { 0x23
    } else if v == 0x33 { 0xc3
    } else if v == 0x34 { 0x18
    } else if v == 0x35 { 0x96
    } else if v == 0x36 { 0x05
    } else if v == 0x37 { 0x9a
    } else if v == 0x38 { 0x07
    } else if v == 0x39 { 0x12
    } else if v == 0x3a { 0x80
    } else if v == 0x3b { 0xe2
    } else if v == 0x3c { 0xeb
    } else if v == 0x3d { 0x27
    } else if v == 0x3e { 0xb2
    } else if v == 0x3f { 0x75
    } else if v == 0x40 { 0x09
    } else if v == 0x41 { 0x83
    } else if v == 0x42 { 0x2c
    } else if v == 0x43 { 0x1a
    } else if v == 0x44 { 0x1b
    } else if v == 0x45 { 0x6e
    } else if v == 0x46 { 0x5a
    } else if v == 0x47 { 0xa0
    } else if v == 0x48 { 0x52
    } else if v == 0x49 { 0x3b
    } else if v == 0x4a { 0xd6
    } else if v == 0x4b { 0xb3
    } else if v == 0x4c { 0x29
    } else if v == 0x4d { 0xe3
    } else if v == 0x4e { 0x2f
    } else if v == 0x4f { 0x84
    } else if v == 0x50 { 0x53
    } else if v == 0x51 { 0xd1
    } else if v == 0x52 { 0x00
    } else if v == 0x53 { 0xed
    } else if v == 0x54 { 0x20
    } else if v == 0x55 { 0xfc
    } else if v == 0x56 { 0xb1
    } else if v == 0x57 { 0x5b
    } else if v == 0x58 { 0x6a
    } else if v == 0x59 { 0xcb
    } else if v == 0x5a { 0xbe
    } else if v == 0x5b { 0x39
    } else if v == 0x5c { 0x4a
    } else if v == 0x5d { 0x4c
    } else if v == 0x5e { 0x58
    } else if v == 0x5f { 0xcf
    } else if v == 0x60 { 0xd0
    } else if v == 0x61 { 0xef
    } else if v == 0x62 { 0xaa
    } else if v == 0x63 { 0xfb
    } else if v == 0x64 { 0x43
    } else if v == 0x65 { 0x4d
    } else if v == 0x66 { 0x33
    } else if v == 0x67 { 0x85
    } else if v == 0x68 { 0x45
    } else if v == 0x69 { 0xf9
    } else if v == 0x6a { 0x02
    } else if v == 0x6b { 0x7f
    } else if v == 0x6c { 0x50
    } else if v == 0x6d { 0x3c
    } else if v == 0x6e { 0x9f
    } else if v == 0x6f { 0xa8
    } else if v == 0x70 { 0x51
    } else if v == 0x71 { 0xa3
    } else if v == 0x72 { 0x40
    } else if v == 0x73 { 0x8f
    } else if v == 0x74 { 0x92
    } else if v == 0x75 { 0x9d
    } else if v == 0x76 { 0x38
    } else if v == 0x77 { 0xf5
    } else if v == 0x78 { 0xbc
    } else if v == 0x79 { 0xb6
    } else if v == 0x7a { 0xda
    } else if v == 0x7b { 0x21
    } else if v == 0x7c { 0x10
    } else if v == 0x7d { 0xff
    } else if v == 0x7e { 0xf3
    } else if v == 0x7f { 0xd2
    } else if v == 0x80 { 0xcd
    } else if v == 0x81 { 0x0c
    } else if v == 0x82 { 0x13
    } else if v == 0x83 { 0xec
    } else if v == 0x84 { 0x5f
    } else if v == 0x85 { 0x97
    } else if v == 0x86 { 0x44
    } else if v == 0x87 { 0x17
    } else if v == 0x88 { 0xc4
    } else if v == 0x89 { 0xa7
    } else if v == 0x8a { 0x7e
    } else if v == 0x8b { 0x3d
    } else if v == 0x8c { 0x64
    } else if v == 0x8d { 0x5d
    } else if v == 0x8e { 0x19
    } else if v == 0x8f { 0x73
    } else if v == 0x90 { 0x60
    } else if v == 0x91 { 0x81
    } else if v == 0x92 { 0x4f
    } else if v == 0x93 { 0xdc
    } else if v == 0x94 { 0x22
    } else if v == 0x95 { 0x2a
    } else if v == 0x96 { 0x90
    } else if v == 0x97 { 0x88
    } else if v == 0x98 { 0x46
    } else if v == 0x99 { 0xee
    } else if v == 0x9a { 0xb8
    } else if v == 0x9b { 0x14
    } else if v == 0x9c { 0xde
    } else if v == 0x9d { 0x5e
    } else if v == 0x9e { 0x0b
    } else if v == 0x9f { 0xdb
    } else if v == 0xa0 { 0xe0
    } else if v == 0xa1 { 0x32
    } else if v == 0xa2 { 0x3a
    } else if v == 0xa3 { 0x0a
    } else if v == 0xa4 { 0x49
    } else if v == 0xa5 { 0x06
    } else if v == 0xa6 { 0x24
    } else if v == 0xa7 { 0x5c
    } else if v == 0xa8 { 0xc2
    } else if v == 0xa9 { 0xd3
    } else if v == 0xaa { 0xac
    } else if v == 0xab { 0x62
    } else if v == 0xac { 0x91
    } else if v == 0xad { 0x95
    } else if v == 0xae { 0xe4
    } else if v == 0xaf { 0x79
    } else if v == 0xb0 { 0xe7
    } else if v == 0xb1 { 0xc8
    } else if v == 0xb2 { 0x37
    } else if v == 0xb3 { 0x6d
    } else if v == 0xb4 { 0x8d
    } else if v == 0xb5 { 0xd5
    } else if v == 0xb6 { 0x4e
    } else if v == 0xb7 { 0xa9
    } else if v == 0xb8 { 0x6c
    } else if v == 0xb9 { 0x56
    } else if v == 0xba { 0xf4
    } else if v == 0xbb { 0xea
    } else if v == 0xbc { 0x65
    } else if v == 0xbd { 0x7a
    } else if v == 0xbe { 0xae
    } else if v == 0xbf { 0x08
    } else if v == 0xc0 { 0xba
    } else if v == 0xc1 { 0x78
    } else if v == 0xc2 { 0x25
    } else if v == 0xc3 { 0x2e
    } else if v == 0xc4 { 0x1c
    } else if v == 0xc5 { 0xa6
    } else if v == 0xc6 { 0xb4
    } else if v == 0xc7 { 0xc6
    } else if v == 0xc8 { 0xe8
    } else if v == 0xc9 { 0xdd
    } else if v == 0xca { 0x74
    } else if v == 0xcb { 0x1f
    } else if v == 0xcc { 0x4b
    } else if v == 0xcd { 0xbd
    } else if v == 0xce { 0x8b
    } else if v == 0xcf { 0x8a
    } else if v == 0xd0 { 0x70
    } else if v == 0xd1 { 0x3e
    } else if v == 0xd2 { 0xb5
    } else if v == 0xd3 { 0x66
    } else if v == 0xd4 { 0x48
    } else if v == 0xd5 { 0x03
    } else if v == 0xd6 { 0xf6
    } else if v == 0xd7 { 0x0e
    } else if v == 0xd8 { 0x61
    } else if v == 0xd9 { 0x35
    } else if v == 0xda { 0x57
    } else if v == 0xdb { 0xb9
    } else if v == 0xdc { 0x86
    } else if v == 0xdd { 0xc1
    } else if v == 0xde { 0x1d
    } else if v == 0xdf { 0x9e
    } else if v == 0xe0 { 0xe1
    } else if v == 0xe1 { 0xf8
    } else if v == 0xe2 { 0x98
    } else if v == 0xe3 { 0x11
    } else if v == 0xe4 { 0x69
    } else if v == 0xe5 { 0xd9
    } else if v == 0xe6 { 0x8e
    } else if v == 0xe7 { 0x94
    } else if v == 0xe8 { 0x9b
    } else if v == 0xe9 { 0x1e
    } else if v == 0xea { 0x87
    } else if v == 0xeb { 0xe9
    } else if v == 0xec { 0xce
    } else if v == 0xed { 0x55
    } else if v == 0xee { 0x28
    } else if v == 0xef { 0xdf
    } else if v == 0xf0 { 0x8c
    } else if v == 0xf1 { 0xa1
    } else if v == 0xf2 { 0x89
    } else if v == 0xf3 { 0x0d
    } else if v == 0xf4 { 0xbf
    } else if v == 0xf5 { 0xe6
    } else if v == 0xf6 { 0x42
    } else if v == 0xf7 { 0x68
    } else if v == 0xf8 { 0x41
    } else if v == 0xf9 { 0x99
    } else if v == 0xfa { 0x2d
    } else if v == 0xfb { 0x0f
    } else if v == 0xfc { 0xb0
    } else if v == 0xfd { 0x54
    } else if v == 0xfe { 0xbb
    } else { 0x16
    }
}

/// Executable lookup in the substitution table.
pub fn sbox_lookup(v: u8) -> (r: u8)
    ensures
        r == sbox(v),
{
    if v == 0x00 { 0x63
    } else if v == 0x01 { 0x7c
    } else if v == 0x02 { 0x77
    } else if v == 0x03 { 0x7b
    } else if v == 0x04 { 0xf2
    } else if v == 0x05 { 0x6b
    } else if v == 0x06 { 0x6f
    } else if v == 0x07 { 0xc5
    } else if v == 0x08 { 0x30
    } else if v == 0x09 { 0x01
    } else if v == 0x0a { 0x67
    } else if v == 0x0b { 0x2b
    } else if v == 0x0c { 0xfe
    } else if v == 0x0d { 0xd7
    } else if v == 0x0e { 0xab
    } else if v == 0x0f { 0x76
    } else if v == 0x10 { 0xca
    } else if v == 0x11 { 0x82
    } else if v == 0x12 { 0xc9
    } else if v == 0x13 { 0x7d
    } else if v == 0x14 { 0xfa
    } else if v == 0x15 { 0x59
    } else if v == 0x16 { 0x47
    } else if v == 0x17 { 0xf0
    } else if v == 0x18 { 0xad
    } else if v == 0x19 { 0xd4
    } else if v == 0x1a { 0xa2
    } else if v == 0x1b { 0xaf
    } else if v == 0x1c { 0x9c
    } else if v == 0x1d { 0xa4
    } else if v == 0x1e { 0x72
    } else if v == 0x1f { 0xc0
    } else if v == 0x20 { 0xb7
    } else if v == 0x21 { 0xfd
    } else if v == 0x22 { 0x93
    } else if v == 0x23 { 0x26
    } else if v == 0x24 { 0x36
    } else if v == 0x25 { 0x3f
    } else if v == 0x26 { 0xf7
    } else if v == 0x27 { 0xcc
    } else if v == 0x28 { 0x34
    } else if v == 0x29 { 0xa5
    } else if v == 0x2a { 0xe5
    } else if v == 0x2b { 0xf1
    } else if v == 0x2c { 0x71
    } else if v == 0x2d { 0xd8
    } else if v == 0x2e { 0x31
    } else if v == 0x2f { 0x15
    } else if v == 0x30 { 0x04
    } else if v == 0x31 { 0xc7
    } else if v == 0x32 { 0x23
    } else if v == 0x33 { 0xc3
    } else if v == 0x34 { 0x18
    } else if v == 0x35 { 0x96
    } else if v == 0x36 { 0x05
    } else if v == 0x37 { 0x9a
    } else if v == 0x38 { 0x07
    } else if v == 0x39 { 0x12
    } else if v == 0x3a { 0x80
    } else if v == 0x3b { 0xe2
    } else if v == 0x3c { 0xeb
    } else if v == 0x3d { 0x27
    } else if v == 0x3e { 0xb2
    } else if v == 0x3f { 0x75
    } else if v == 0x40 { 0x09
    } else if v == 0x41 { 0x83
    } else if v == 0x42 { 0x2c
    } else if v == 0x43 { 0x1a
    } else if v == 0x44 { 0x1b
    } else if v == 0x45 { 0x6e
    } else if v == 0x46 { 0x5a
    } else if v == 0x47 { 0xa0
    } else if v == 0x48 { 0x52
    } else if v == 0x49 { 0x3b
    } else if v == 0x4a { 0xd6
    } else if v == 0x4b { 0xb3
    } else if v == 0x4c { 0x29
    } else if v == 0x4d { 0xe3
    } else if v == 0x4e { 0x2f
    } else if v == 0x4f { 0x84
    } else if v == 0x50 { 0x53
    } else if v == 0x51 { 0xd1
    } else if v == 0x52 { 0x00
    } else if v == 0x53 { 0xed
    } else if v == 0x54 { 0x20
    } else if v == 0x55 { 0xfc
    } else if v == 0x56 { 0xb1
    } else if v == 0x57 { 0x5b
    } else if v == 0x58 { 0x6a
    } else if v == 0x59 { 0xcb
    } else if v == 0x5a { 0xbe
    } else if v == 0x5b { 0x39
    } else if v == 0x5c { 0x4a
    } else if v == 0x5d { 0x4c
    } else if v == 0x5e { 0x58
    } else if v == 0x5f { 0xcf
    } else if v == 0x60 { 0xd0
    } else if v == 0x61 { 0xef
    } else if v == 0x62 { 0xaa
    } else if v == 0x63 { 0xfb
    } else if v == 0x64 { 0x43
    } else if v == 0x65 { 0x4d
    } else if v == 0x66 { 0x33
    } else if v == 0x67 { 0x85
    } else if v == 0x68 { 0x45
    } else if v == 0x69 { 0xf9
    } else if v == 0x6a { 0x02
    } else if v == 0x6b { 0x7f
    } else if v == 0x6c { 0x50
    } else if v == 0x6d { 0x3c
    } else if v == 0x6e { 0x9f
    } else if v == 0x6f { 0xa8
    } else if v == 0x70 { 0x51
    } else if v == 0x71 { 0xa3
    } else if v == 0x72 { 0x40
    } else if v == 0x73 { 0x8f
    } else if v == 0x74 { 0x92
    } else if v == 0x75 { 0x9d
    } else if v == 0x76 { 0x38
    } else if v == 0x77 { 0xf5
    } else if v == 0x78 { 0xbc
    } else if v == 0x79 { 0xb6
    } else if v == 0x7a { 0xda
    } else if v == 0x7b { 0x21
    } else if v == 0x7c { 0x10
    } else if v == 0x7d { 0xff
    } else if v == 0x7e { 0xf3
    } else if v == 0x7f { 0xd2
    } else if v == 0x80 { 0xcd
    } else if v == 0x81 { 0x0c
    } else if v == 0x82 { 0x13
    } else if v == 0x83 { 0xec
    } else if v == 0x84 { 0x5f
    } else if v == 0x85 { 0x97
    } else if v == 0x86 { 0x44
    } else if v == 0x87 { 0x17
    } else if v == 0x88 { 0xc4
    } else if v == 0x89 { 0xa7
    } else if v == 0x8a { 0x7e
    } else if v == 0x8b { 0x3d
    } else if v == 0x8c { 0x64
    } else if v == 0x8d { 0x5d
    } else if v == 0x8e { 0x19
    } else if v == 0x8f { 0x73
    } else if v == 0x90 { 0x60
    } else if v == 0x91 { 0x81
    } else if v == 0x92 { 0x4f
    } else if v == 0x93 { 0xdc
    } else if v == 0x94 { 0x22
    } else if v == 0x95 { 0x2a
    } else if v == 0x96 { 0x90
    } else if v == 0x97 { 0x88
    } else if v == 0x98 { 0x46
    } else if v == 0x99 { 0xee
    } else if v == 0x9a { 0xb8
    } else if v == 0x9b { 0x14
    } else if v == 0x9c { 0xde
    } else if v == 0x9d { 0x5e
    } else if v == 0x9e { 0x0b
    } else if v == 0x9f { 0xdb
    } else if v == 0xa0 { 0xe0
    } else if v == 0xa1 { 0x32
    } else if v == 0xa2 { 0x3a
    } else if v == 0xa3 { 0x0a
    } else if v == 0xa4 { 0x49
    } else if v == 0xa5 { 0x06
    } else if v == 0xa6 { 0x24
    } else if v == 0xa7 { 0x5c
    } else if v == 0xa8 { 0xc2
    } else if v == 0xa9 { 0xd3
    } else if v == 0xaa { 0xac
    } else if v == 0xab { 0x62
    } else if v == 0xac { 0x91
    } else if v == 0xad { 0x95
    } else if v == 0xae { 0xe4
    } else if v == 0xaf { 0x79
    } else if v == 0xb0 { 0xe7
    } else if v == 0xb1 { 0xc8
    } else if v == 0xb2 { 0x37
    } else if v == 0xb3 { 0x6d
    } else if v == 0xb4 { 0x8d
    } else if v == 0xb5 { 0xd5
    } else if v == 0xb6 { 0x4e
    } else if v == 0xb7 { 0xa9
    } else if v == 0xb8 { 0x6c
    } else if v == 0xb9 { 0x56
    } else if v == 0xba { 0xf4
    } else if v == 0xbb { 0xea
    } else if v == 0xbc { 0x65
    } else if v == 0xbd { 0x7a
    } else if v == 0xbe { 0xae
    } else if v == 0xbf { 0x08
    } else if v == 0xc0 { 0xba
    } else if v == 0xc1 { 0x78
    } else if v == 0xc2 { 0x25
    } else if v == 0xc3 { 0x2e
    } else if v == 0xc4 { 0x1c
    } else if v == 0xc5 { 0xa6
    } else if v == 0xc6 { 0xb4
    } else if v == 0xc7 { 0xc6
    } else if v == 0xc8 { 0xe8
    } else if v == 0xc9 { 0xdd
    } else if v == 0xca { 0x74
    } else if v == 0xcb { 0x1f
    } else if v == 0xcc { 0x4b
    } else if v == 0xcd { 0xbd
    } else if v == 0xce { 0x8b
    } else if v == 0xcf { 0x8a
    } else if v == 0xd0 { 0x70
    } else if v == 0xd1 { 0x3e
    } else if v == 0xd2 { 0xb5
    } else if v == 0xd3 { 0x66
    } else if v == 0xd4 { 0x48
    } else if v == 0xd5 { 0x03
    } else if v == 0xd6 { 0xf6
    } else if v == 0xd7 { 0x0e
    } else if v == 0xd8 { 0x61
    } else if v == 0xd9 { 0x35
    } else if v == 0xda { 0x57
    } else if v == 0xdb { 0xb9
    } else if v == 0xdc { 0x86
    } else if v == 0xdd { 0xc1
    } else if v == 0xde { 0x1d
    } else if v == 0xdf { 0x9e
    } else if v == 0xe0 { 0xe1
    } else if v == 0xe1 { 0xf8
    } else if v == 0xe2 { 0x98
    } else if v == 0xe3 { 0x11
    } else if v == 0xe4 { 0x69
    } else if v == 0xe5 { 0xd9
    } else if v == 0xe6 { 0x8e
    } else if v == 0xe7 { 0x94
    } else if v == 0xe8 { 0x9b
    } else if v == 0xe9 { 0x1e
    } else if v == 0xea { 0x87
    } else if v == 0xeb { 0xe9
    } else if v == 0xec { 0xce
    } else if v == 0xed { 0x55
    } else if v == 0xee { 0x28
    } else if v == 0xef { 0xdf
    } else if v == 0xf0 { 0x8c
    } else if v == 0xf1 { 0xa1
    } else if v == 0xf2 { 0x89
    } else if v == 0xf3 { 0x0d
    } else if v == 0xf4 { 0xbf
    } else if v == 0xf5 { 0xe6
    } else if v == 0xf6 { 0x42
    } else if v == 0xf7 { 0x68
    } else if v == 0xf8 { 0x41
    } else if v == 0xf9 { 0x99
    } else if v == 0xfa { 0x2d
    } else if v == 0xfb { 0x0f
    } else if v == 0xfc { 0xb0
    } else if v == 0xfd { 0x54
    } else if v == 0xfe { 0xbb
    } else { 0x16
    }
}

} // verus!
