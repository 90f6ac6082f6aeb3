use wasm::binary::encode::Encode;
use wasm::binary::module::Module;

const HEADER: [u8; 8] = [0x00, 0x61, 0x73, 0x6d, 0x01, 0x00, 0x00, 0x00];

fn assemble(sections: &[Vec<u8>]) -> Vec<u8> {
    let mut bytes = HEADER.to_vec();
    for section in sections {
        bytes.extend_from_slice(section);
    }
    bytes
}

/// A section of fewer than 128 bytes: its id, its size, its body.
fn section(id: u8, body: &[u8]) -> Vec<u8> {
    assert!(body.len() < 128);
    let mut bytes = vec![id, body.len() as u8];
    bytes.extend_from_slice(body);
    bytes
}

/// A code section with one entry of fewer than 126 bytes.
fn code(inside: &[u8]) -> Vec<u8> {
    let mut body = vec![0x01, inside.len() as u8];
    body.extend_from_slice(inside);
    section(0x0a, &body)
}

/// A module with every kind of section, blocks in blocks, a label table,
/// vector instructions, prefixed instructions and segments of several
/// flags, written in the shortest form and with the custom section last.
fn rich_module() -> Vec<u8> {
    assemble(&[
        // two types: (i32, i64) -> (f32), () -> ()
        section(0x01, &[0x02, 0x60, 0x02, 0x7f, 0x7e, 0x01, 0x7d, 0x60, 0x00, 0x00]),
        // imports: env.f (func 1), env.t (table funcref 1..), env.g (global i64 var)
        section(
            0x02,
            &[
                0x03, 0x03, b'e', b'n', b'v', 0x01, b'f', 0x00, 0x01, 0x03, b'e', b'n', b'v',
                0x01, b't', 0x01, 0x70, 0x00, 0x01, 0x03, b'e', b'n', b'v', 0x01, b'g', 0x03,
                0x7e, 0x01,
            ],
        ),
        section(0x03, &[0x01, 0x01]),
        section(0x05, &[0x01, 0x01, 0x01, 0x10]),
        // a global: f64 const, initialised by f64.const
        section(0x06, &[0x01, 0x7c, 0x00, 0x44, 1, 2, 3, 4, 5, 6, 7, 8, 0x0b]),
        section(0x07, &[0x02, 0x03, b'r', b'u', b'n', 0x00, 0x01, 0x01, b'm', 0x02, 0x00]),
        section(0x08, &[0x01]),
        // elements: flag 0 (offset, funcs), flag 1 (passive, kind, funcs),
        // flag 5 (passive, type, expressions)
        section(
            0x09,
            &[
                0x03, 0x00, 0x41, 0x00, 0x0b, 0x02, 0x00, 0x01, 0x01, 0x00, 0x01, 0x00, 0x05,
                0x70, 0x01, 0xd2, 0x01, 0x0b,
            ],
        ),
        section(0x0c, &[0x02]),
        code(&[
            0x02, 0x02, 0x7f, 0x01, 0x7b,
            // block (result i32) i32.const -5 loop i32.const 0 br_table 1 0 0 end end drop
            0x02, 0x7f, 0x41, 0x7b, 0x03, 0x40, 0x41, 0x00, 0x0e, 0x02, 0x01, 0x00, 0x00, 0x0b,
            0x0b, 0x1a,
            // i32.const 1 if nop else unreachable end
            0x41, 0x01, 0x04, 0x40, 0x01, 0x05, 0x00, 0x0b,
            // i32.const 0 i64.load align=3 offset=200 drop
            0x41, 0x00, 0x29, 0x03, 0xc8, 0x01, 0x1a,
            // three zeros, memory.init 1 0, data.drop 1
            0x41, 0x00, 0x41, 0x00, 0x41, 0x00, 0xfc, 0x08, 0x01, 0x00, 0xfc, 0x09, 0x01,
            // local.get 2 i8x16.extract_lane_u 3 drop, memory.size drop
            0x20, 0x02, 0xfd, 0x16, 0x03, 0x1a, 0x3f, 0x00, 0x1a,
            0x0b,
        ]),
        // data: flag 0 with offset, flag 1 passive
        section(0x0b, &[0x02, 0x00, 0x41, 0x08, 0x0b, 0x02, 0xaa, 0xbb, 0x01, 0x01, 0xcc]),
        section(0x00, &[0x02, b'h', b'i', 0x01, 0x02]),
    ])
}

#[test]
fn a_written_module_is_read_back() {
    let bytes = rich_module();
    let module = Module::from_data(bytes.clone()).expect("the module decodes");
    let written = module.encode();
    assert_eq!(written, bytes);
    let again = Module::from_data(written).expect("what was written decodes");
    assert_eq!(format!("{:?}", again), format!("{:?}", module));
    assert_eq!(module.type_sec.len(), 2);
    assert_eq!(module.elem_sec.len(), 3);
    assert_eq!(module.data_counat_sec, Some(2));
    assert_eq!(module.start_sec, Some(1));
    assert_eq!(module.code_sec[0].body.len(), 17);
}

#[test]
fn numbers_written_at_length_are_shortened() {
    // the section sizes, a count and an index take more bytes than needed,
    // and the custom section comes first
    let bytes = assemble(&[
        vec![0x00, 0x03, 0x01, b'n', 0x07],
        vec![0x01, 0x85, 0x80, 0x00, 0x81, 0x00, 0x60, 0x00, 0x00],
        vec![0x03, 0x03, 0x01, 0x80, 0x00],
        vec![0x0a, 0x07, 0x01, 0x05, 0x00, 0x10, 0x80, 0x00, 0x0b],
    ]);
    let module = Module::from_data(bytes.clone()).expect("the module decodes");
    let written = module.encode();
    assert_eq!(
        written,
        assemble(&[
            vec![0x01, 0x04, 0x01, 0x60, 0x00, 0x00],
            vec![0x03, 0x02, 0x01, 0x00],
            vec![0x0a, 0x06, 0x01, 0x04, 0x00, 0x10, 0x00, 0x0b],
            vec![0x00, 0x03, 0x01, b'n', 0x07],
        ])
    );
    let again = Module::from_data(written.clone()).expect("what was written decodes");
    assert_eq!(again.func_sec, module.func_sec);
    assert_eq!(again.custom_sec[0].data, vec![7]);
    assert_eq!(again.code_sec[0].size, 4);
    assert_eq!(module.code_sec[0].size, 5);
    assert_eq!(format!("{:?}", again.code_sec[0].body), format!("{:?}", module.code_sec[0].body));
    assert_eq!(again.encode(), written);
}
