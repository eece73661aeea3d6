//! The marching-cubes triangulation table.
//!
//! Corners of a cell are numbered 0 to 7 with offsets (0,0,0), (1,0,0),
//! (1,1,0), (0,1,0), (0,0,1), (1,0,1), (1,1,1), (0,1,1); edges 0 to 11 join
//! the corners 0-1, 1-2, 2-3, 3-0, 4-5, 5-6, 6-7, 7-4, 0-4, 1-5, 2-6, 3-7.
//! A configuration has bit `v` set where corner `v` is inside. Its row lists
//! triangles as consecutive triples of edges; each vertex sits at its edge's
//! midpoint.
use vstd::prelude::*;

verus! {

/// The offset of corner `v` within its cell.
pub open spec fn corner_offset(v: int) -> (nat, nat, nat) {
    if v == 0 {
        (0, 0, 0)
    } else if v == 1 {
        (1, 0, 0)
    } else if v == 2 {
        (1, 1, 0)
    } else if v == 3 {
        (0, 1, 0)
    } else if v == 4 {
        (0, 0, 1)
    } else if v == 5 {
        (1, 0, 1)
    } else if v == 6 {
        (1, 1, 1)
    } else {
        (0, 1, 1)
    }
}

/// The two corners that edge `e` joins.
pub open spec fn edge_corners(e: int) -> (int, int) {
    if e < 4 {
        (e, (e + 1) % 4)
    } else if e < 8 {
        (e, 4 + (e - 3) % 4)
    } else {
        (e - 8, e - 4)
    }
}

/// Whether corner `v` is inside in configuration `c`.
pub open spec fn corner_bit(c: u8, v: int) -> bool {
    let p: int = if v == 0 {
        1
    } else if v == 1 {
        2
    } else if v == 2 {
        4
    } else if v == 3 {
        8
    } else if v == 4 {
        16
    } else if v == 5 {
        32
    } else if v == 6 {
        64
    } else {
        128
    };
    (c as int / p) % 2 == 1
}

/// Edge `e` joins an inside corner to an outside one.
pub open spec fn crossing(c: u8, e: int) -> bool {
    corner_bit(c, edge_corners(e).0) != corner_bit(c, edge_corners(e).1)
}

/// The row of the table for configuration `c`: triples of edge numbers.
pub open spec fn triangle_row(c: u8) -> Seq<u8> {
    match c {
        0 => seq![],
        1 => seq![0, 8, 3],
        2 => seq![0, 1, 9],
        3 => seq![1, 8, 3, 9, 8, 1],
        4 => seq![1, 2, 10],
        5 => seq![0, 8, 3, 1, 2, 10],
        6 => seq![9, 2, 10, 0, 2, 9],
        7 => seq![2, 8, 3, 2, 10, 8, 10, 9, 8],
        8 => seq![3, 11, 2],
        9 => seq![0, 11, 2, 8, 11, 0],
        10 => seq![1, 9, 0, 2, 3, 11],
        11 => seq![1, 11, 2, 1, 9, 11, 9, 8, 11],
        12 => seq![3, 10, 1, 11, 10, 3],
        13 => seq![0, 10, 1, 0, 8, 10, 8, 11, 10],
        14 => seq![3, 9, 0, 3, 11, 9, 11, 10, 9],
        15 => seq![9, 8, 10, 10, 8, 11],
        16 => seq![4, 7, 8],
        17 => seq![4, 3, 0, 7, 3, 4],
        18 => seq![0, 1, 9, 8, 4, 7],
        19 => seq![4, 1, 9, 4, 7, 1, 7, 3, 1],
        20 => seq![1, 2, 10, 8, 4, 7],
        21 => seq![3, 4, 7, 3, 0, 4, 1, 2, 10],
        22 => seq![9, 2, 10, 9, 0, 2, 8, 4, 7],
        23 => seq![2, 10, 9, 2, 9, 7, 2, 7, 3, 7, 9, 4],
        24 => seq![8, 4, 7, 3, 11, 2],
        25 => seq![11, 4, 7, 11, 2, 4, 2, 0, 4],
        26 => seq![9, 0, 1, 8, 4, 7, 2, 3, 11],
        27 => seq![4, 7, 11, 9, 4, 11, 9, 11, 2, 9, 2, 1],
        28 => seq![3, 10, 1, 3, 11, 10, 7, 8, 4],
        29 => seq![1, 11, 10, 1, 4, 11, 1, 0, 4, 7, 11, 4],
        30 => seq![4, 7, 8, 9, 0, 11, 9, 11, 10, 11, 0, 3],
        31 => seq![4, 7, 11, 4, 11, 9, 9, 11, 10],
        32 => seq![9, 5, 4],
        33 => seq![9, 5, 4, 0, 8, 3],
        34 => seq![0, 5, 4, 1, 5, 0],
        35 => seq![8, 5, 4, 8, 3, 5, 3, 1, 5],
        36 => seq![1, 2, 10, 9, 5, 4],
        37 => seq![3, 0, 8, 1, 2, 10, 4, 9, 5],
        38 => seq![5, 2, 10, 5, 4, 2, 4, 0, 2],
        39 => seq![2, 10, 5, 3, 2, 5, 3, 5, 4, 3, 4, 8],
        40 => seq![9, 5, 4, 2, 3, 11],
        41 => seq![0, 11, 2, 0, 8, 11, 4, 9, 5],
        42 => seq![0, 5, 4, 0, 1, 5, 2, 3, 11],
        43 => seq![2, 1, 5, 2, 5, 8, 2, 8, 11, 4, 8, 5],
        44 => seq![10, 3, 11, 10, 1, 3, 9, 5, 4],
        45 => seq![4, 9, 5, 0, 8, 1, 8, 10, 1, 8, 11, 10],
        46 => seq![5, 4, 0, 5, 0, 11, 5, 11, 10, 11, 0, 3],
        47 => seq![5, 4, 8, 5, 8, 10, 10, 8, 11],
        48 => seq![9, 7, 8, 5, 7, 9],
        49 => seq![9, 3, 0, 9, 5, 3, 5, 7, 3],
        50 => seq![0, 7, 8, 0, 1, 7, 1, 5, 7],
        51 => seq![1, 5, 3, 3, 5, 7],
        52 => seq![9, 7, 8, 9, 5, 7, 10, 1, 2],
        53 => seq![10, 1, 2, 9, 5, 0, 5, 3, 0, 5, 7, 3],
        54 => seq![8, 0, 2, 8, 2, 5, 8, 5, 7, 10, 5, 2],
        55 => seq![2, 10, 5, 2, 5, 3, 3, 5, 7],
        56 => seq![7, 9, 5, 7, 8, 9, 3, 11, 2],
        57 => seq![9, 5, 7, 9, 7, 2, 9, 2, 0, 2, 7, 11],
        58 => seq![2, 3, 11, 0, 1, 8, 1, 7, 8, 1, 5, 7],
        59 => seq![11, 2, 1, 11, 1, 7, 7, 1, 5],
        60 => seq![9, 5, 8, 8, 5, 7, 10, 1, 3, 10, 3, 11],
        61 => seq![5, 7, 0, 5, 0, 9, 7, 11, 0, 1, 0, 10, 11, 10, 0],
        62 => seq![11, 10, 0, 11, 0, 3, 10, 5, 0, 8, 0, 7, 5, 7, 0],
        63 => seq![11, 10, 5, 7, 11, 5],
        64 => seq![10, 6, 5],
        65 => seq![0, 8, 3, 5, 10, 6],
        66 => seq![9, 0, 1, 5, 10, 6],
        67 => seq![1, 8, 3, 1, 9, 8, 5, 10, 6],
        68 => seq![1, 6, 5, 2, 6, 1],
        69 => seq![1, 6, 5, 1, 2, 6, 3, 0, 8],
        70 => seq![9, 6, 5, 9, 0, 6, 0, 2, 6],
        71 => seq![5, 9, 8, 5, 8, 2, 5, 2, 6, 3, 2, 8],
        72 => seq![2, 3, 11, 10, 6, 5],
        73 => seq![11, 0, 8, 11, 2, 0, 10, 6, 5],
        74 => seq![0, 1, 9, 2, 3, 11, 5, 10, 6],
        75 => seq![5, 10, 6, 1, 9, 2, 9, 11, 2, 9, 8, 11],
        76 => seq![6, 3, 11, 6, 5, 3, 5, 1, 3],
        77 => seq![0, 8, 11, 0, 11, 5, 0, 5, 1, 5, 11, 6],
        78 => seq![3, 11, 6, 0, 3, 6, 0, 6, 5, 0, 5, 9],
        79 => seq![6, 5, 9, 6, 9, 11, 11, 9, 8],
        80 => seq![5, 10, 6, 4, 7, 8],
        81 => seq![4, 3, 0, 4, 7, 3, 6, 5, 10],
        82 => seq![1, 9, 0, 5, 10, 6, 8, 4, 7],
        83 => seq![10, 6, 5, 1, 9, 7, 1, 7, 3, 7, 9, 4],
        84 => seq![6, 1, 2, 6, 5, 1, 4, 7, 8],
        85 => seq![1, 2, 5, 5, 2, 6, 3, 0, 4, 3, 4, 7],
        86 => seq![8, 4, 7, 9, 0, 5, 0, 6, 5, 0, 2, 6],
        87 => seq![7, 3, 9, 7, 9, 4, 3, 2, 9, 5, 9, 6, 2, 6, 9],
        88 => seq![3, 11, 2, 7, 8, 4, 10, 6, 5],
        89 => seq![5, 10, 6, 4, 7, 2, 4, 2, 0, 2, 7, 11],
        90 => seq![0, 1, 9, 4, 7, 8, 2, 3, 11, 5, 10, 6],
        91 => seq![9, 2, 1, 9, 11, 2, 9, 4, 11, 7, 11, 4, 5, 10, 6],
        92 => seq![8, 4, 7, 3, 11, 5, 3, 5, 1, 5, 11, 6],
        93 => seq![5, 1, 11, 5, 11, 6, 1, 0, 11, 7, 11, 4, 0, 4, 11],
        94 => seq![0, 5, 9, 0, 6, 5, 0, 3, 6, 11, 6, 3, 8, 4, 7],
        95 => seq![6, 5, 9, 6, 9, 11, 4, 7, 9, 7, 11, 9],
        96 => seq![10, 4, 9, 6, 4, 10],
        97 => seq![4, 10, 6, 4, 9, 10, 0, 8, 3],
        98 => seq![10, 0, 1, 10, 6, 0, 6, 4, 0],
        99 => seq![8, 3, 1, 8, 1, 6, 8, 6, 4, 6, 1, 10],
        100 => seq![1, 4, 9, 1, 2, 4, 2, 6, 4],
        101 => seq![3, 0, 8, 1, 2, 9, 2, 4, 9, 2, 6, 4],
        102 => seq![0, 2, 4, 4, 2, 6],
        103 => seq![8, 3, 2, 8, 2, 4, 4, 2, 6],
        104 => seq![10, 4, 9, 10, 6, 4, 11, 2, 3],
        105 => seq![0, 8, 2, 2, 8, 11, 4, 9, 10, 4, 10, 6],
        106 => seq![3, 11, 2, 0, 1, 6, 0, 6, 4, 6, 1, 10],
        107 => seq![6, 4, 1, 6, 1, 10, 4, 8, 1, 2, 1, 11, 8, 11, 1],
        108 => seq![9, 6, 4, 9, 3, 6, 9, 1, 3, 11, 6, 3],
        109 => seq![8, 11, 1, 8, 1, 0, 11, 6, 1, 9, 1, 4, 6, 4, 1],
        110 => seq![3, 11, 6, 3, 6, 0, 0, 6, 4],
        111 => seq![6, 4, 8, 11, 6, 8],
        112 => seq![7, 10, 6, 7, 8, 10, 8, 9, 10],
        113 => seq![0, 7, 3, 0, 10, 7, 0, 9, 10, 6, 7, 10],
        114 => seq![10, 6, 7, 1, 10, 7, 1, 7, 8, 1, 8, 0],
        115 => seq![10, 6, 7, 10, 7, 1, 1, 7, 3],
        116 => seq![1, 2, 6, 1, 6, 8, 1, 8, 9, 8, 6, 7],
        117 => seq![2, 6, 9, 2, 9, 1, 6, 7, 9, 0, 9, 3, 7, 3, 9],
        118 => seq![7, 8, 0, 7, 0, 6, 6, 0, 2],
        119 => seq![7, 3, 2, 6, 7, 2],
        120 => seq![2, 3, 11, 10, 6, 8, 10, 8, 9, 8, 6, 7],
        121 => seq![2, 0, 7, 2, 7, 11, 0, 9, 7, 6, 7, 10, 9, 10, 7],
        122 => seq![1, 8, 0, 1, 7, 8, 1, 10, 7, 6, 7, 10, 2, 3, 11],
        123 => seq![11, 2, 1, 11, 1, 7, 10, 6, 1, 6, 7, 1],
        124 => seq![8, 9, 6, 8, 6, 7, 9, 1, 6, 11, 6, 3, 1, 3, 6],
        125 => seq![0, 9, 1, 11, 6, 7],
        126 => seq![7, 8, 0, 7, 0, 6, 3, 11, 0, 11, 6, 0],
        127 => seq![7, 11, 6],
        128 => seq![7, 6, 11],
        129 => seq![3, 0, 8, 11, 7, 6],
        130 => seq![0, 1, 9, 11, 7, 6],
        131 => seq![8, 1, 9, 8, 3, 1, 11, 7, 6],
        132 => seq![10, 1, 2, 6, 11, 7],
        133 => seq![1, 2, 10, 3, 0, 8, 6, 11, 7],
        134 => seq![2, 9, 0, 2, 10, 9, 6, 11, 7],
        135 => seq![6, 11, 7, 2, 10, 3, 10, 8, 3, 10, 9, 8],
        136 => seq![7, 2, 3, 6, 2, 7],
        137 => seq![7, 0, 8, 7, 6, 0, 6, 2, 0],
        138 => seq![2, 7, 6, 2, 3, 7, 0, 1, 9],
        139 => seq![1, 6, 2, 1, 8, 6, 1, 9, 8, 8, 7, 6],
        140 => seq![10, 7, 6, 10, 1, 7, 1, 3, 7],
        141 => seq![10, 7, 6, 1, 7, 10, 1, 8, 7, 1, 0, 8],
        142 => seq![0, 3, 7, 0, 7, 10, 0, 10, 9, 6, 10, 7],
        143 => seq![7, 6, 10, 7, 10, 8, 8, 10, 9],
        144 => seq![6, 8, 4, 11, 8, 6],
        145 => seq![3, 6, 11, 3, 0, 6, 0, 4, 6],
        146 => seq![8, 6, 11, 8, 4, 6, 9, 0, 1],
        147 => seq![9, 4, 6, 9, 6, 3, 9, 3, 1, 11, 3, 6],
        148 => seq![6, 8, 4, 6, 11, 8, 2, 10, 1],
        149 => seq![1, 2, 10, 3, 0, 11, 0, 6, 11, 0, 4, 6],
        150 => seq![4, 11, 8, 4, 6, 11, 0, 2, 9, 2, 10, 9],
        151 => seq![10, 9, 3, 10, 3, 2, 9, 4, 3, 11, 3, 6, 4, 6, 3],
        152 => seq![8, 2, 3, 8, 4, 2, 4, 6, 2],
        153 => seq![0, 4, 2, 4, 6, 2],
        154 => seq![1, 9, 0, 2, 3, 4, 2, 4, 6, 4, 3, 8],
        155 => seq![1, 9, 4, 1, 4, 2, 2, 4, 6],
        156 => seq![8, 1, 3, 8, 6, 1, 8, 4, 6, 6, 10, 1],
        157 => seq![10, 1, 0, 10, 0, 6, 6, 0, 4],
        158 => seq![4, 6, 3, 4, 3, 8, 6, 10, 3, 0, 3, 9, 10, 9, 3],
        159 => seq![10, 9, 4, 6, 10, 4],
        160 => seq![4, 9, 5, 7, 6, 11],
        161 => seq![0, 8, 3, 4, 9, 5, 11, 7, 6],
        162 => seq![5, 0, 1, 5, 4, 0, 7, 6, 11],
        163 => seq![11, 7, 6, 8, 3, 4, 3, 5, 4, 3, 1, 5],
        164 => seq![9, 5, 4, 10, 1, 2, 7, 6, 11],
        165 => seq![6, 11, 7, 1, 2, 10, 0, 8, 3, 4, 9, 5],
        166 => seq![7, 6, 11, 5, 4, 10, 4, 2, 10, 4, 0, 2],
        167 => seq![3, 4, 8, 3, 5, 4, 3, 2, 5, 10, 5, 2, 11, 7, 6],
        168 => seq![7, 2, 3, 7, 6, 2, 5, 4, 9],
        169 => seq![9, 5, 4, 0, 8, 6, 0, 6, 2, 6, 8, 7],
        170 => seq![3, 6, 2, 3, 7, 6, 1, 5, 0, 5, 4, 0],
        171 => seq![6, 2, 8, 6, 8, 7, 2, 1, 8, 4, 8, 5, 1, 5, 8],
        172 => seq![9, 5, 4, 10, 1, 6, 1, 7, 6, 1, 3, 7],
        173 => seq![1, 6, 10, 1, 7, 6, 1, 0, 7, 8, 7, 0, 9, 5, 4],
        174 => seq![4, 0, 10, 4, 10, 5, 0, 3, 10, 6, 10, 7, 3, 7, 10],
        175 => seq![7, 6, 10, 7, 10, 8, 5, 4, 10, 4, 8, 10],
        176 => seq![6, 9, 5, 6, 11, 9, 11, 8, 9],
        177 => seq![3, 6, 11, 0, 6, 3, 0, 5, 6, 0, 9, 5],
        178 => seq![0, 11, 8, 0, 5, 11, 0, 1, 5, 5, 6, 11],
        179 => seq![6, 11, 3, 6, 3, 5, 5, 3, 1],
        180 => seq![1, 2, 10, 9, 5, 11, 9, 11, 8, 11, 5, 6],
        181 => seq![0, 11, 3, 0, 6, 11, 0, 9, 6, 5, 6, 9, 1, 2, 10],
        182 => seq![11, 8, 5, 11, 5, 6, 8, 0, 5, 10, 5, 2, 0, 2, 5],
        183 => seq![6, 11, 3, 6, 3, 5, 2, 10, 3, 10, 5, 3],
        184 => seq![5, 8, 9, 5, 2, 8, 5, 6, 2, 3, 8, 2],
        185 => seq![9, 5, 6, 9, 6, 0, 0, 6, 2],
        186 => seq![1, 5, 8, 1, 8, 0, 5, 6, 8, 3, 8, 2, 6, 2, 8],
        187 => seq![1, 5, 6, 2, 1, 6],
        188 => seq![1, 3, 6, 1, 6, 10, 3, 8, 6, 5, 6, 9, 8, 9, 6],
        189 => seq![10, 1, 0, 10, 0, 6, 9, 5, 0, 5, 6, 0],
        190 => seq![0, 3, 8, 5, 6, 10],
        191 => seq![10, 5, 6],
        192 => seq![11, 5, 10, 7, 5, 11],
        193 => seq![11, 5, 10, 11, 7, 5, 8, 3, 0],
        194 => seq![5, 11, 7, 5, 10, 11, 1, 9, 0],
        195 => seq![10, 7, 5, 10, 11, 7, 9, 8, 1, 8, 3, 1],
        196 => seq![11, 1, 2, 11, 7, 1, 7, 5, 1],
        197 => seq![0, 8, 3, 1, 2, 7, 1, 7, 5, 7, 2, 11],
        198 => seq![9, 7, 5, 9, 2, 7, 9, 0, 2, 2, 11, 7],
        199 => seq![7, 5, 2, 7, 2, 11, 5, 9, 2, 3, 2, 8, 9, 8, 2],
        200 => seq![2, 5, 10, 2, 3, 5, 3, 7, 5],
        201 => seq![8, 2, 0, 8, 5, 2, 8, 7, 5, 10, 2, 5],
        202 => seq![9, 0, 1, 5, 10, 3, 5, 3, 7, 3, 10, 2],
        203 => seq![9, 8, 2, 9, 2, 1, 8, 7, 2, 10, 2, 5, 7, 5, 2],
        204 => seq![1, 3, 5, 3, 7, 5],
        205 => seq![0, 8, 7, 0, 7, 1, 1, 7, 5],
        206 => seq![9, 0, 3, 9, 3, 5, 5, 3, 7],
        207 => seq![9, 8, 7, 5, 9, 7],
        208 => seq![5, 8, 4, 5, 10, 8, 10, 11, 8],
        209 => seq![5, 0, 4, 5, 11, 0, 5, 10, 11, 11, 3, 0],
        210 => seq![0, 1, 9, 8, 4, 10, 8, 10, 11, 10, 4, 5],
        211 => seq![10, 11, 4, 10, 4, 5, 11, 3, 4, 9, 4, 1, 3, 1, 4],
        212 => seq![2, 5, 1, 2, 8, 5, 2, 11, 8, 4, 5, 8],
        213 => seq![0, 4, 11, 0, 11, 3, 4, 5, 11, 2, 11, 1, 5, 1, 11],
        214 => seq![0, 2, 5, 0, 5, 9, 2, 11, 5, 4, 5, 8, 11, 8, 5],
        215 => seq![9, 4, 5, 2, 11, 3],
        216 => seq![2, 5, 10, 3, 5, 2, 3, 4, 5, 3, 8, 4],
        217 => seq![5, 10, 2, 5, 2, 4, 4, 2, 0],
        218 => seq![3, 10, 2, 3, 5, 10, 3, 8, 5, 4, 5, 8, 0, 1, 9],
        219 => seq![5, 10, 2, 5, 2, 4, 1, 9, 2, 9, 4, 2],
        220 => seq![8, 4, 5, 8, 5, 3, 3, 5, 1],
        221 => seq![0, 4, 5, 1, 0, 5],
        222 => seq![8, 4, 5, 8, 5, 3, 9, 0, 5, 0, 3, 5],
        223 => seq![9, 4, 5],
        224 => seq![4, 11, 7, 4, 9, 11, 9, 10, 11],
        225 => seq![0, 8, 3, 4, 9, 7, 9, 11, 7, 9, 10, 11],
        226 => seq![1, 10, 11, 1, 11, 4, 1, 4, 0, 7, 4, 11],
        227 => seq![3, 1, 4, 3, 4, 8, 1, 10, 4, 7, 4, 11, 10, 11, 4],
        228 => seq![4, 11, 7, 9, 11, 4, 9, 2, 11, 9, 1, 2],
        229 => seq![9, 7, 4, 9, 11, 7, 9, 1, 11, 2, 11, 1, 0, 8, 3],
        230 => seq![11, 7, 4, 11, 4, 2, 2, 4, 0],
        231 => seq![11, 7, 4, 11, 4, 2, 8, 3, 4, 3, 2, 4],
        232 => seq![2, 9, 10, 2, 7, 9, 2, 3, 7, 7, 4, 9],
        233 => seq![9, 10, 7, 9, 7, 4, 10, 2, 7, 8, 7, 0, 2, 0, 7],
        234 => seq![3, 7, 10, 3, 10, 2, 7, 4, 10, 1, 10, 0, 4, 0, 10],
        235 => seq![1, 10, 2, 8, 7, 4],
        236 => seq![4, 9, 1, 4, 1, 7, 7, 1, 3],
        237 => seq![4, 9, 1, 4, 1, 7, 0, 8, 1, 8, 7, 1],
        238 => seq![4, 0, 3, 7, 4, 3],
        239 => seq![4, 8, 7],
        240 => seq![9, 10, 8, 10, 11, 8],
        241 => seq![3, 0, 9, 3, 9, 11, 11, 9, 10],
        242 => seq![0, 1, 10, 0, 10, 8, 8, 10, 11],
        243 => seq![3, 1, 10, 11, 3, 10],
        244 => seq![1, 2, 11, 1, 11, 9, 9, 11, 8],
        245 => seq![3, 0, 9, 3, 9, 11, 1, 2, 9, 2, 11, 9],
        246 => seq![0, 2, 11, 8, 0, 11],
        247 => seq![3, 2, 11],
        248 => seq![2, 3, 8, 2, 8, 10, 10, 8, 9],
        249 => seq![9, 10, 2, 0, 9, 2],
        250 => seq![2, 3, 8, 2, 8, 10, 0, 1, 8, 1, 10, 8],
        251 => seq![1, 10, 2],
        252 => seq![1, 3, 8, 9, 1, 8],
        253 => seq![0, 9, 1],
        254 => seq![0, 3, 8],
        _ => seq![],
    }
}

/// The table's row for a configuration.
pub fn triangle_table(c: u8) -> (r: Vec<u8>)
    ensures
        r@ == triangle_row(c),
{
    match c {
        0 => vec![],
        1 => vec![0, 8, 3],
        2 => vec![0, 1, 9],
        3 => vec![1, 8, 3, 9, 8, 1],
        4 => vec![1, 2, 10],
        5 => vec![0, 8, 3, 1, 2, 10],
        6 => vec![9, 2, 10, 0, 2, 9],
        7 => vec![2, 8, 3, 2, 10, 8, 10, 9, 8],
        8 => vec![3, 11, 2],
        9 => vec![0, 11, 2, 8, 11, 0],
        10 => vec![1, 9, 0, 2, 3, 11],
        11 => vec![1, 11, 2, 1, 9, 11, 9, 8, 11],
        12 => vec![3, 10, 1, 11, 10, 3],
        13 => vec![0, 10, 1, 0, 8, 10, 8, 11, 10],
        14 => vec![3, 9, 0, 3, 11, 9, 11, 10, 9],
        15 => vec![9, 8, 10, 10, 8, 11],
        16 => vec![4, 7, 8],
        17 => vec![4, 3, 0, 7, 3, 4],
        18 => vec![0, 1, 9, 8, 4, 7],
        19 => vec![4, 1, 9, 4, 7, 1, 7, 3, 1],
        20 => vec![1, 2, 10, 8, 4, 7],
        21 => vec![3, 4, 7, 3, 0, 4, 1, 2, 10],
        22 => vec![9, 2, 10, 9, 0, 2, 8, 4, 7],
        23 => vec![2, 10, 9, 2, 9, 7, 2, 7, 3, 7, 9, 4],
        24 => vec![8, 4, 7, 3, 11, 2],
        25 => vec![11, 4, 7, 11, 2, 4, 2, 0, 4],
        26 => vec![9, 0, 1, 8, 4, 7, 2, 3, 11],
        27 => vec![4, 7, 11, 9, 4, 11, 9, 11, 2, 9, 2, 1],
        28 => vec![3, 10, 1, 3, 11, 10, 7, 8, 4],
        29 => vec![1, 11, 10, 1, 4, 11, 1, 0, 4, 7, 11, 4],
        30 => vec![4, 7, 8, 9, 0, 11, 9, 11, 10, 11, 0, 3],
        31 => vec![4, 7, 11, 4, 11, 9, 9, 11, 10],
        32 => vec![9, 5, 4],
        33 => vec![9, 5, 4, 0, 8, 3],
        34 => vec![0, 5, 4, 1, 5, 0],
        35 => vec![8, 5, 4, 8, 3, 5, 3, 1, 5],
        36 => vec![1, 2, 10, 9, 5, 4],
        37 => vec![3, 0, 8, 1, 2, 10, 4, 9, 5],
        38 => vec![5, 2, 10, 5, 4, 2, 4, 0, 2],
        39 => vec![2, 10, 5, 3, 2, 5, 3, 5, 4, 3, 4, 8],
        40 => vec![9, 5, 4, 2, 3, 11],
        41 => vec![0, 11, 2, 0, 8, 11, 4, 9, 5],
        42 => vec![0, 5, 4, 0, 1, 5, 2, 3, 11],
        43 => vec![2, 1, 5, 2, 5, 8, 2, 8, 11, 4, 8, 5],
        44 => vec![10, 3, 11, 10, 1, 3, 9, 5, 4],
        45 => vec![4, 9, 5, 0, 8, 1, 8, 10, 1, 8, 11, 10],
        46 => vec![5, 4, 0, 5, 0, 11, 5, 11, 10, 11, 0, 3],
        47 => vec![5, 4, 8, 5, 8, 10, 10, 8, 11],
        48 => vec![9, 7, 8, 5, 7, 9],
        49 => vec![9, 3, 0, 9, 5, 3, 5, 7, 3],
        50 => vec![0, 7, 8, 0, 1, 7, 1, 5, 7],
        51 => vec![1, 5, 3, 3, 5, 7],
        52 => vec![9, 7, 8, 9, 5, 7, 10, 1, 2],
        53 => vec![10, 1, 2, 9, 5, 0, 5, 3, 0, 5, 7, 3],
        54 => vec![8, 0, 2, 8, 2, 5, 8, 5, 7, 10, 5, 2],
        55 => vec![2, 10, 5, 2, 5, 3, 3, 5, 7],
        56 => vec![7, 9, 5, 7, 8, 9, 3, 11, 2],
        57 => vec![9, 5, 7, 9, 7, 2, 9, 2, 0, 2, 7, 11],
        58 => vec![2, 3, 11, 0, 1, 8, 1, 7, 8, 1, 5, 7],
        59 => vec![11, 2, 1, 11, 1, 7, 7, 1, 5],
        60 => vec![9, 5, 8, 8, 5, 7, 10, 1, 3, 10, 3, 11],
        61 => vec![5, 7, 0, 5, 0, 9, 7, 11, 0, 1, 0, 10, 11, 10, 0],
        62 => vec![11, 10, 0, 11, 0, 3, 10, 5, 0, 8, 0, 7, 5, 7, 0],
        63 => vec![11, 10, 5, 7, 11, 5],
        64 => vec![10, 6, 5],
        65 => vec![0, 8, 3, 5, 10, 6],
        66 => vec![9, 0, 1, 5, 10, 6],
        67 => vec![1, 8, 3, 1, 9, 8, 5, 10, 6],
        68 => vec![1, 6, 5, 2, 6, 1],
        69 => vec![1, 6, 5, 1, 2, 6, 3, 0, 8],
        70 => vec![9, 6, 5, 9, 0, 6, 0, 2, 6],
        71 => vec![5, 9, 8, 5, 8, 2, 5, 2, 6, 3, 2, 8],
        72 => vec![2, 3, 11, 10, 6, 5],
        73 => vec![11, 0, 8, 11, 2, 0, 10, 6, 5],
        74 => vec![0, 1, 9, 2, 3, 11, 5, 10, 6],
        75 => vec![5, 10, 6, 1, 9, 2, 9, 11, 2, 9, 8, 11],
        76 => vec![6, 3, 11, 6, 5, 3, 5, 1, 3],
        77 => vec![0, 8, 11, 0, 11, 5, 0, 5, 1, 5, 11, 6],
        78 => vec![3, 11, 6, 0, 3, 6, 0, 6, 5, 0, 5, 9],
        79 => vec![6, 5, 9, 6, 9, 11, 11, 9, 8],
        80 => vec![5, 10, 6, 4, 7, 8],
        81 => vec![4, 3, 0, 4, 7, 3, 6, 5, 10],
        82 => vec![1, 9, 0, 5, 10, 6, 8, 4, 7],
        83 => vec![10, 6, 5, 1, 9, 7, 1, 7, 3, 7, 9, 4],
        84 => vec![6, 1, 2, 6, 5, 1, 4, 7, 8],
        85 => vec![1, 2, 5, 5, 2, 6, 3, 0, 4, 3, 4, 7],
        86 => vec![8, 4, 7, 9, 0, 5, 0, 6, 5, 0, 2, 6],
        87 => vec![7, 3, 9, 7, 9, 4, 3, 2, 9, 5, 9, 6, 2, 6, 9],
        88 => vec![3, 11, 2, 7, 8, 4, 10, 6, 5],
        89 => vec![5, 10, 6, 4, 7, 2, 4, 2, 0, 2, 7, 11],
        90 => vec![0, 1, 9, 4, 7, 8, 2, 3, 11, 5, 10, 6],
        91 => vec![9, 2, 1, 9, 11, 2, 9, 4, 11, 7, 11, 4, 5, 10, 6],
        92 => vec![8, 4, 7, 3, 11, 5, 3, 5, 1, 5, 11, 6],
        93 => vec![5, 1, 11, 5, 11, 6, 1, 0, 11, 7, 11, 4, 0, 4, 11],
        94 => vec![0, 5, 9, 0, 6, 5, 0, 3, 6, 11, 6, 3, 8, 4, 7],
        95 => vec![6, 5, 9, 6, 9, 11, 4, 7, 9, 7, 11, 9],
        96 => vec![10, 4, 9, 6, 4, 10],
        97 => vec![4, 10, 6, 4, 9, 10, 0, 8, 3],
        98 => vec![10, 0, 1, 10, 6, 0, 6, 4, 0],
        99 => vec![8, 3, 1, 8, 1, 6, 8, 6, 4, 6, 1, 10],
        100 => vec![1, 4, 9, 1, 2, 4, 2, 6, 4],
        101 => vec![3, 0, 8, 1, 2, 9, 2, 4, 9, 2, 6, 4],
        102 => vec![0, 2, 4, 4, 2, 6],
        103 => vec![8, 3, 2, 8, 2, 4, 4, 2, 6],
        104 => vec![10, 4, 9, 10, 6, 4, 11, 2, 3],
        105 => vec![0, 8, 2, 2, 8, 11, 4, 9, 10, 4, 10, 6],
        106 => vec![3, 11, 2, 0, 1, 6, 0, 6, 4, 6, 1, 10],
        107 => vec![6, 4, 1, 6, 1, 10, 4, 8, 1, 2, 1, 11, 8, 11, 1],
        108 => vec![9, 6, 4, 9, 3, 6, 9, 1, 3, 11, 6, 3],
        109 => vec![8, 11, 1, 8, 1, 0, 11, 6, 1, 9, 1, 4, 6, 4, 1],
        110 => vec![3, 11, 6, 3, 6, 0, 0, 6, 4],
        111 => vec![6, 4, 8, 11, 6, 8],
        112 => vec![7, 10, 6, 7, 8, 10, 8, 9, 10],
        113 => vec![0, 7, 3, 0, 10, 7, 0, 9, 10, 6, 7, 10],
        114 => vec![10, 6, 7, 1, 10, 7, 1, 7, 8, 1, 8, 0],
        115 => vec![10, 6, 7, 10, 7, 1, 1, 7, 3],
        116 => vec![1, 2, 6, 1, 6, 8, 1, 8, 9, 8, 6, 7],
        117 => vec![2, 6, 9, 2, 9, 1, 6, 7, 9, 0, 9, 3, 7, 3, 9],
        118 => vec![7, 8, 0, 7, 0, 6, 6, 0, 2],
        119 => vec![7, 3, 2, 6, 7, 2],
        120 => vec![2, 3, 11, 10, 6, 8, 10, 8, 9, 8, 6, 7],
        121 => vec![2, 0, 7, 2, 7, 11, 0, 9, 7, 6, 7, 10, 9, 10, 7],
        122 => vec![1, 8, 0, 1, 7, 8, 1, 10, 7, 6, 7, 10, 2, 3, 11],
        123 => vec![11, 2, 1, 11, 1, 7, 10, 6, 1, 6, 7, 1],
        124 => vec![8, 9, 6, 8, 6, 7, 9, 1, 6, 11, 6, 3, 1, 3, 6],
        125 => vec![0, 9, 1, 11, 6, 7],
        126 => vec![7, 8, 0, 7, 0, 6, 3, 11, 0, 11, 6, 0],
        127 => vec![7, 11, 6],
        128 => vec![7, 6, 11],
        129 => vec![3, 0, 8, 11, 7, 6],
        130 => vec![0, 1, 9, 11, 7, 6],
        131 => vec![8, 1, 9, 8, 3, 1, 11, 7, 6],
        132 => vec![10, 1, 2, 6, 11, 7],
        133 => vec![1, 2, 10, 3, 0, 8, 6, 11, 7],
        134 => vec![2, 9, 0, 2, 10, 9, 6, 11, 7],
        135 => vec![6, 11, 7, 2, 10, 3, 10, 8, 3, 10, 9, 8],
        136 => vec![7, 2, 3, 6, 2, 7],
        137 => vec![7, 0, 8, 7, 6, 0, 6, 2, 0],
        138 => vec![2, 7, 6, 2, 3, 7, 0, 1, 9],
        139 => vec![1, 6, 2, 1, 8, 6, 1, 9, 8, 8, 7, 6],
        140 => vec![10, 7, 6, 10, 1, 7, 1, 3, 7],
        141 => vec![10, 7, 6, 1, 7, 10, 1, 8, 7, 1, 0, 8],
        142 => vec![0, 3, 7, 0, 7, 10, 0, 10, 9, 6, 10, 7],
        143 => vec![7, 6, 10, 7, 10, 8, 8, 10, 9],
        144 => vec![6, 8, 4, 11, 8, 6],
        145 => vec![3, 6, 11, 3, 0, 6, 0, 4, 6],
        146 => vec![8, 6, 11, 8, 4, 6, 9, 0, 1],
        147 => vec![9, 4, 6, 9, 6, 3, 9, 3, 1, 11, 3, 6],
        148 => vec![6, 8, 4, 6, 11, 8, 2, 10, 1],
        149 => vec![1, 2, 10, 3, 0, 11, 0, 6, 11, 0, 4, 6],
        150 => vec![4, 11, 8, 4, 6, 11, 0, 2, 9, 2, 10, 9],
        151 => vec![10, 9, 3, 10, 3, 2, 9, 4, 3, 11, 3, 6, 4, 6, 3],
        152 => vec![8, 2, 3, 8, 4, 2, 4, 6, 2],
        153 => vec![0, 4, 2, 4, 6, 2],
        154 => vec![1, 9, 0, 2, 3, 4, 2, 4, 6, 4, 3, 8],
        155 => vec![1, 9, 4, 1, 4, 2, 2, 4, 6],
        156 => vec![8, 1, 3, 8, 6, 1, 8, 4, 6, 6, 10, 1],
        157 => vec![10, 1, 0, 10, 0, 6, 6, 0, 4],
        158 => vec![4, 6, 3, 4, 3, 8, 6, 10, 3, 0, 3, 9, 10, 9, 3],
        159 => vec![10, 9, 4, 6, 10, 4],
        160 => vec![4, 9, 5, 7, 6, 11],
        161 => vec![0, 8, 3, 4, 9, 5, 11, 7, 6],
        162 => vec![5, 0, 1, 5, 4, 0, 7, 6, 11],
        163 => vec![11, 7, 6, 8, 3, 4, 3, 5, 4, 3, 1, 5],
        164 => vec![9, 5, 4, 10, 1, 2, 7, 6, 11],
        165 => vec![6, 11, 7, 1, 2, 10, 0, 8, 3, 4, 9, 5],
        166 => vec![7, 6, 11, 5, 4, 10, 4, 2, 10, 4, 0, 2],
        167 => vec![3, 4, 8, 3, 5, 4, 3, 2, 5, 10, 5, 2, 11, 7, 6],
        168 => vec![7, 2, 3, 7, 6, 2, 5, 4, 9],
        169 => vec![9, 5, 4, 0, 8, 6, 0, 6, 2, 6, 8, 7],
        170 => vec![3, 6, 2, 3, 7, 6, 1, 5, 0, 5, 4, 0],
        171 => vec![6, 2, 8, 6, 8, 7, 2, 1, 8, 4, 8, 5, 1, 5, 8],
        172 => vec![9, 5, 4, 10, 1, 6, 1, 7, 6, 1, 3, 7],
        173 => vec![1, 6, 10, 1, 7, 6, 1, 0, 7, 8, 7, 0, 9, 5, 4],
        174 => vec![4, 0, 10, 4, 10, 5, 0, 3, 10, 6, 10, 7, 3, 7, 10],
        175 => vec![7, 6, 10, 7, 10, 8, 5, 4, 10, 4, 8, 10],
        176 => vec![6, 9, 5, 6, 11, 9, 11, 8, 9],
        177 => vec![3, 6, 11, 0, 6, 3, 0, 5, 6, 0, 9, 5],
        178 => vec![0, 11, 8, 0, 5, 11, 0, 1, 5, 5, 6, 11],
        179 => vec![6, 11, 3, 6, 3, 5, 5, 3, 1],
        180 => vec![1, 2, 10, 9, 5, 11, 9, 11, 8, 11, 5, 6],
        181 => vec![0, 11, 3, 0, 6, 11, 0, 9, 6, 5, 6, 9, 1, 2, 10],
        182 => vec![11, 8, 5, 11, 5, 6, 8, 0, 5, 10, 5, 2, 0, 2, 5],
        183 => vec![6, 11, 3, 6, 3, 5, 2, 10, 3, 10, 5, 3],
        184 => vec![5, 8, 9, 5, 2, 8, 5, 6, 2, 3, 8, 2],
        185 => vec![9, 5, 6, 9, 6, 0, 0, 6, 2],
        186 => vec![1, 5, 8, 1, 8, 0, 5, 6, 8, 3, 8, 2, 6, 2, 8],
        187 => vec![1, 5, 6, 2, 1, 6],
        188 => vec![1, 3, 6, 1, 6, 10, 3, 8, 6, 5, 6, 9, 8, 9, 6],
        189 => vec![10, 1, 0, 10, 0, 6, 9, 5, 0, 5, 6, 0],
        190 => vec![0, 3, 8, 5, 6, 10],
        191 => vec![10, 5, 6],
        192 => vec![11, 5, 10, 7, 5, 11],
        193 => vec![11, 5, 10, 11, 7, 5, 8, 3, 0],
        194 => vec![5, 11, 7, 5, 10, 11, 1, 9, 0],
        195 => vec![10, 7, 5, 10, 11, 7, 9, 8, 1, 8, 3, 1],
        196 => vec![11, 1, 2, 11, 7, 1, 7, 5, 1],
        197 => vec![0, 8, 3, 1, 2, 7, 1, 7, 5, 7, 2, 11],
        198 => vec![9, 7, 5, 9, 2, 7, 9, 0, 2, 2, 11, 7],
        199 => vec![7, 5, 2, 7, 2, 11, 5, 9, 2, 3, 2, 8, 9, 8, 2],
        200 => vec![2, 5, 10, 2, 3, 5, 3, 7, 5],
        201 => vec![8, 2, 0, 8, 5, 2, 8, 7, 5, 10, 2, 5],
        202 => vec![9, 0, 1, 5, 10, 3, 5, 3, 7, 3, 10, 2],
        203 => vec![9, 8, 2, 9, 2, 1, 8, 7, 2, 10, 2, 5, 7, 5, 2],
        204 => vec![1, 3, 5, 3, 7, 5],
        205 => vec![0, 8, 7, 0, 7, 1, 1, 7, 5],
        206 => vec![9, 0, 3, 9, 3, 5, 5, 3, 7],
        207 => vec![9, 8, 7, 5, 9, 7],
        208 => vec![5, 8, 4, 5, 10, 8, 10, 11, 8],
        209 => vec![5, 0, 4, 5, 11, 0, 5, 10, 11, 11, 3, 0],
        210 => vec![0, 1, 9, 8, 4, 10, 8, 10, 11, 10, 4, 5],
        211 => vec![10, 11, 4, 10, 4, 5, 11, 3, 4, 9, 4, 1, 3, 1, 4],
        212 => vec![2, 5, 1, 2, 8, 5, 2, 11, 8, 4, 5, 8],
        213 => vec![0, 4, 11, 0, 11, 3, 4, 5, 11, 2, 11, 1, 5, 1, 11],
        214 => vec![0, 2, 5, 0, 5, 9, 2, 11, 5, 4, 5, 8, 11, 8, 5],
        215 => vec![9, 4, 5, 2, 11, 3],
        216 => vec![2, 5, 10, 3, 5, 2, 3, 4, 5, 3, 8, 4],
        217 => vec![5, 10, 2, 5, 2, 4, 4, 2, 0],
        218 => vec![3, 10, 2, 3, 5, 10, 3, 8, 5, 4, 5, 8, 0, 1, 9],
        219 => vec![5, 10, 2, 5, 2, 4, 1, 9, 2, 9, 4, 2],
        220 => vec![8, 4, 5, 8, 5, 3, 3, 5, 1],
        221 => vec![0, 4, 5, 1, 0, 5],
        222 => vec![8, 4, 5, 8, 5, 3, 9, 0, 5, 0, 3, 5],
        223 => vec![9, 4, 5],
        224 => vec![4, 11, 7, 4, 9, 11, 9, 10, 11],
        225 => vec![0, 8, 3, 4, 9, 7, 9, 11, 7, 9, 10, 11],
        226 => vec![1, 10, 11, 1, 11, 4, 1, 4, 0, 7, 4, 11],
        227 => vec![3, 1, 4, 3, 4, 8, 1, 10, 4, 7, 4, 11, 10, 11, 4],
        228 => vec![4, 11, 7, 9, 11, 4, 9, 2, 11, 9, 1, 2],
        229 => vec![9, 7, 4, 9, 11, 7, 9, 1, 11, 2, 11, 1, 0, 8, 3],
        230 => vec![11, 7, 4, 11, 4, 2, 2, 4, 0],
        231 => vec![11, 7, 4, 11, 4, 2, 8, 3, 4, 3, 2, 4],
        232 => vec![2, 9, 10, 2, 7, 9, 2, 3, 7, 7, 4, 9],
        233 => vec![9, 10, 7, 9, 7, 4, 10, 2, 7, 8, 7, 0, 2, 0, 7],
        234 => vec![3, 7, 10, 3, 10, 2, 7, 4, 10, 1, 10, 0, 4, 0, 10],
        235 => vec![1, 10, 2, 8, 7, 4],
        236 => vec![4, 9, 1, 4, 1, 7, 7, 1, 3],
        237 => vec![4, 9, 1, 4, 1, 7, 0, 8, 1, 8, 7, 1],
        238 => vec![4, 0, 3, 7, 4, 3],
        239 => vec![4, 8, 7],
        240 => vec![9, 10, 8, 10, 11, 8],
        241 => vec![3, 0, 9, 3, 9, 11, 11, 9, 10],
        242 => vec![0, 1, 10, 0, 10, 8, 8, 10, 11],
        243 => vec![3, 1, 10, 11, 3, 10],
        244 => vec![1, 2, 11, 1, 11, 9, 9, 11, 8],
        245 => vec![3, 0, 9, 3, 9, 11, 1, 2, 9, 2, 11, 9],
        246 => vec![0, 2, 11, 8, 0, 11],
        247 => vec![3, 2, 11],
        248 => vec![2, 3, 8, 2, 8, 10, 10, 8, 9],
        249 => vec![9, 10, 2, 0, 9, 2],
        250 => vec![2, 3, 8, 2, 8, 10, 0, 1, 8, 1, 10, 8],
        251 => vec![1, 10, 2],
        252 => vec![1, 3, 8, 9, 1, 8],
        253 => vec![0, 9, 1],
        254 => vec![0, 3, 8],
        // 255: every corner inside, no crossing
        _ => Vec::new(),
    }
}

/// Row `c` of the table holds whole triangles, at most five, and every
/// vertex lies on an edge that joins an inside corner to an outside one.
pub open spec fn row_crosses(c: u8) -> bool {
    &&& triangle_row(c).len() % 3 == 0
    &&& triangle_row(c).len() <= 15
    &&& forall|k: int|
        0 <= k < triangle_row(c).len() ==> #[trigger] triangle_row(c)[k] < 12 && crossing(
            c,
            triangle_row(c)[k] as int,
        )
}

proof fn lemma_rows_cross_0(c: u8)
    requires
        0 <= c < 16,
    ensures
        row_crosses(c),
{
}

proof fn lemma_rows_cross_1(c: u8)
    requires
        16 <= c < 32,
    ensures
        row_crosses(c),
{
}

proof fn lemma_rows_cross_2(c: u8)
    requires
        32 <= c < 48,
    ensures
        row_crosses(c),
{
}

proof fn lemma_rows_cross_3(c: u8)
    requires
        48 <= c < 64,
    ensures
        row_crosses(c),
{
}

proof fn lemma_rows_cross_4(c: u8)
    requires
        64 <= c < 80,
    ensures
        row_crosses(c),
{
}

proof fn lemma_rows_cross_5(c: u8)
    requires
        80 <= c < 96,
    ensures
        row_crosses(c),
{
}

proof fn lemma_rows_cross_6(c: u8)
    requires
        96 <= c < 112,
    ensures
        row_crosses(c),
{
}

proof fn lemma_rows_cross_7(c: u8)
    requires
        112 <= c < 128,
    ensures
        row_crosses(c),
{
}

proof fn lemma_rows_cross_8(c: u8)
    requires
        128 <= c < 144,
    ensures
        row_crosses(c),
{
}

proof fn lemma_rows_cross_9(c: u8)
    requires
        144 <= c < 160,
    ensures
        row_crosses(c),
{
}

proof fn lemma_rows_cross_10(c: u8)
    requires
        160 <= c < 176,
    ensures
        row_crosses(c),
{
}

proof fn lemma_rows_cross_11(c: u8)
    requires
        176 <= c < 192,
    ensures
        row_crosses(c),
{
}

proof fn lemma_rows_cross_12(c: u8)
    requires
        192 <= c < 208,
    ensures
        row_crosses(c),
{
}

proof fn lemma_rows_cross_13(c: u8)
    requires
        208 <= c < 224,
    ensures
        row_crosses(c),
{
}

proof fn lemma_rows_cross_14(c: u8)
    requires
        224 <= c < 240,
    ensures
        row_crosses(c),
{
}

proof fn lemma_rows_cross_15(c: u8)
    requires
        240 <= c < 256,
    ensures
        row_crosses(c),
{
}

/// Every row of the table is made of whole triangles, at most five, and
/// every vertex lies on an edge that joins an inside corner to an outside
/// one.
pub proof fn lemma_rows_cross(c: u8)
    ensures
        row_crosses(c),
{
    if c < 16 {
        lemma_rows_cross_0(c);
    } else if c < 32 {
        lemma_rows_cross_1(c);
    } else if c < 48 {
        lemma_rows_cross_2(c);
    } else if c < 64 {
        lemma_rows_cross_3(c);
    } else if c < 80 {
        lemma_rows_cross_4(c);
    } else if c < 96 {
        lemma_rows_cross_5(c);
    } else if c < 112 {
        lemma_rows_cross_6(c);
    } else if c < 128 {
        lemma_rows_cross_7(c);
    } else if c < 144 {
        lemma_rows_cross_8(c);
    } else if c < 160 {
        lemma_rows_cross_9(c);
    } else if c < 176 {
        lemma_rows_cross_10(c);
    } else if c < 192 {
        lemma_rows_cross_11(c);
    } else if c < 208 {
        lemma_rows_cross_12(c);
    } else if c < 224 {
        lemma_rows_cross_13(c);
    } else if c < 240 {
        lemma_rows_cross_14(c);
    } else {
        lemma_rows_cross_15(c);
    }
}

} // verus!
