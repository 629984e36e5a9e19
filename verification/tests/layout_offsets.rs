use rawuefi::layout::align_up;
use rawuefi::layout::field_offsets;
use rawuefi::layout::max_align;
use rawuefi::layout::struct_size;
use rawuefi::layout::FieldDesc;
use rawuefi::runtime_services::time_field_descs;
use rawuefi::simple_text_input::input_key_field_descs;
use rawuefi::simple_text_input::simple_text_input_field_descs;
use rawuefi::simple_text_input_ex::key_data_field_descs;
use rawuefi::simple_text_input_ex::key_state_field_descs;
use rawuefi::simple_text_input_ex::simple_text_input_ex_field_descs;
use rawuefi::simple_text_output::output_mode_field_descs;
use rawuefi::simple_text_output::simple_text_output_field_descs;
use rawuefi::system::system_table_field_descs;
use rawuefi::tables::table_header_field_descs;
use rawuefi::types::BOOLEAN;
use rawuefi::types::CHAR16;
use rawuefi::types::CHAR8;
use rawuefi::types::INT128;
use rawuefi::types::INT16;
use rawuefi::types::INT32;
use rawuefi::types::INT64;
use rawuefi::types::INT8;
use rawuefi::types::INTN;
use rawuefi::types::UINT128;
use rawuefi::types::UINT16;
use rawuefi::types::UINT32;
use rawuefi::types::UINT64;
use rawuefi::types::UINT8;
use rawuefi::types::UINTN;

#[test]
fn scalar_aliases_have_mandated_widths() {
    assert_eq!(core::mem::size_of::<BOOLEAN>(), 1);
    assert_eq!(core::mem::size_of::<INT8>(), 1);
    assert_eq!(core::mem::size_of::<UINT8>(), 1);
    assert_eq!(core::mem::size_of::<INT16>(), 2);
    assert_eq!(core::mem::size_of::<UINT16>(), 2);
    assert_eq!(core::mem::size_of::<INT32>(), 4);
    assert_eq!(core::mem::size_of::<UINT32>(), 4);
    assert_eq!(core::mem::size_of::<INT64>(), 8);
    assert_eq!(core::mem::size_of::<UINT64>(), 8);
    assert_eq!(core::mem::size_of::<INT128>(), 16);
    assert_eq!(core::mem::size_of::<UINT128>(), 16);
    assert_eq!(core::mem::size_of::<CHAR8>(), 1);
    assert_eq!(core::mem::size_of::<CHAR16>(), 2);
    assert_eq!(core::mem::size_of::<INTN>(), core::mem::size_of::<usize>());
    assert_eq!(core::mem::size_of::<UINTN>(), core::mem::size_of::<usize>());
}

#[test]
fn align_up_rounds_to_the_next_multiple() {
    assert_eq!(align_up(0, 8), 0);
    assert_eq!(align_up(1, 8), 8);
    assert_eq!(align_up(8, 8), 8);
    assert_eq!(align_up(9, 4), 12);
    assert_eq!(align_up(21, 4), 24);
}

#[test]
fn table_header_offsets_match_documentation() {
    let descs = table_header_field_descs();
    let offsets = field_offsets(&descs);
    assert_eq!(offsets, vec![0, 8, 12, 16, 20]);
    assert_eq!(max_align(&descs), 8);
    assert_eq!(struct_size(&descs, 8), 24);
}

#[test]
fn input_key_offsets_match_documentation() {
    let descs = input_key_field_descs();
    assert_eq!(field_offsets(&descs), vec![0, 2]);
    assert_eq!(struct_size(&descs, 2), 4);
}

#[test]
fn simple_text_input_table_offsets_match_documentation() {
    let descs = simple_text_input_field_descs();
    assert_eq!(field_offsets(&descs), vec![0, 8, 16]);
    assert_eq!(struct_size(&descs, 8), 24);
}

#[test]
fn simple_text_input_ex_table_offsets_match_documentation() {
    let descs = simple_text_input_ex_field_descs();
    assert_eq!(field_offsets(&descs), vec![0, 8, 16, 24, 32]);
    assert_eq!(struct_size(&descs, 8), 40);
}

#[test]
fn key_state_and_key_data_offsets_match_documentation() {
    let state = key_state_field_descs();
    assert_eq!(field_offsets(&state), vec![0, 4]);
    assert_eq!(struct_size(&state, 4), 8);
    let data = key_data_field_descs();
    assert_eq!(field_offsets(&data), vec![0, 4]);
    assert_eq!(struct_size(&data, 4), 12);
}

#[test]
fn simple_text_output_table_offsets_match_documentation() {
    let descs = simple_text_output_field_descs();
    assert_eq!(field_offsets(&descs), vec![0, 8, 16, 24, 32, 40, 48, 56, 64, 72]);
    assert_eq!(struct_size(&descs, 8), 80);
}

#[test]
fn output_mode_offsets_match_documentation() {
    let descs = output_mode_field_descs();
    assert_eq!(field_offsets(&descs), vec![0, 4, 8, 12, 16, 20]);
    assert_eq!(max_align(&descs), 4);
    assert_eq!(struct_size(&descs, 4), 24);
}

#[test]
fn time_offsets_match_documentation() {
    let descs = time_field_descs();
    assert_eq!(field_offsets(&descs), vec![0, 2, 3, 4, 5, 6, 7, 8, 12, 14, 15]);
    assert_eq!(struct_size(&descs, 4), 16);
}

#[test]
fn system_table_offsets_match_documentation() {
    let descs = system_table_field_descs();
    assert_eq!(field_offsets(&descs), vec![0, 24, 32, 40, 48]);
    assert_eq!(struct_size(&descs, 8), 56);
}

#[test]
fn padding_is_inserted_before_more_aligned_fields() {
    let descs = vec![
        FieldDesc { size: 1, align: 1 },
        FieldDesc { size: 8, align: 8 },
        FieldDesc { size: 2, align: 2 },
    ];
    assert_eq!(field_offsets(&descs), vec![0, 8, 16]);
    assert_eq!(max_align(&descs), 8);
    assert_eq!(struct_size(&descs, 8), 24);
}
