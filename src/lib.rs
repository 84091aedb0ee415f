//! Safety and lifecycle layer between a host process and a native key-value /
//! message-queue client.
//!
//! The library marshals bulk records between host collections and the native
//! side's manually freed structures, keeps outbound buffers alive for exactly
//! as long as a native call reads them, shares message-handler handles with a
//! dispatcher until the last holder lets go, and decides the outcome of
//! readiness waits.
//!
//! The native side's memory is tracked by a [`NativeHeap`] ledger: every
//! native block has an id, and a block can be released only while live. The
//! take functions release every block of the arrays they consume exactly
//! once, whatever fails along the way.
mod connectors;
mod cxxstring;
mod exception;
mod guard;
mod handles;
mod keepalive;
mod marshal;
mod native;
mod numeral;
mod readiness;
mod record;
mod round_trip;
mod testing;
mod zmq;

pub use connectors::{
    namespace_or_default, BorrowedDbConnector, ConfigDBConnector, EventPublisher, Logger,
    LoggerConfigChangeHandler, SonicDbTable, SonicV2Connector,
};
pub use cxxstring::{lossy_utf8, CxxStr, CxxString};
pub use exception::{Exception, ExceptionKind, ExceptionView, Result};
pub use guard::{lemma_guard_release_order, release_effect, release_outcome, DropGuard};
pub use handles::{
    call_error, connection_error, flag, names_error, no_value_on_failure, read_data_result, value_ids,
    ConsumerStateTable, DbConnectionInfo, DbConnector, SubscriberStateTable, Table,
    DEFAULT_CLONE_TIMEOUT_MS,
};
pub use keepalive::{
    c_bytes, capacity_error, cstr, empty_write_error, encoded_field_values, encoded_record, extends,
    field_values_encode_error, has_nul, kept_c_string, kept_value, key_op_views, make_field_value_array,
    make_key_op_field_values_array, native_len, nul_error, pair_views, read_field_value, read_field_value_array,
    read_field_values, read_key_op, read_key_op_array, read_key_ops, record_encode_error, record_encode_error_fn,
    records_encode_error, FieldValueArrayRef, FieldValueRef, KeepAlive, KeptBuffer, KeyOpArrayRef, KeyOpRef,
    NATIVE_LEN_MAX,
};
pub use marshal::{
    check_status, cstring_error, cstring_error_fn, error_view, failure_ids, failure_strings_owned,
    field_value_array_error, field_value_array_map, field_value_error, field_value_error_fn, field_value_map,
    first_error, invalid_utf8_error, key_op_array_error, key_op_array_records, key_op_codes_known, key_op_error,
    key_op_error_fn, key_op_record, key_op_records, lemma_first_error_extends, lemma_first_error_prefix,
    native_failure, null_value_error, call_result, open_error, open_handle, status_ids, status_owned, lemma_first_error_none, string_array_error, string_array_texts, string_texts, take_cstr,
    take_field_value_array, take_key_op_field_values_array, take_string_array, NativeStatus, RAW_EXCEPTION_NONE,
};
pub use native::{
    cstring_ids_fn, field_value_array_ids, field_value_ids, field_value_ids_fn, ids_of, key_op_array_ids,
    key_op_ids, key_op_ids_fn, lemma_ids_of_prefix, lemma_ids_of_split, lemma_middle_fresh, string_array_ids,
    without, NativeBlock, NativeCString, NativeFieldValue, NativeFieldValueArray, NativeHeap,
    NativeKeyOpFieldValues, NativeKeyOpFieldValuesArray, NativeString, NativeStringArray,
};
pub use numeral::{decimal, decimal_string, hex_digit, hex_string, hex_upper};
pub use readiness::{
    decide, lemma_data_reported_once, lemma_pending_record_gives_data, lemma_wait_outcomes, wait_or_time_out,
    ReadinessWaiter, WaitAction, WaitEvent,
};
pub use record::{
    ascii_upper, matches_ignoring_case, pairs_map, spec_parse_key_operation, str_equal, unique_fields,
    FieldValues, InvalidKeyOperationString, KeyOpFieldValues, KeyOpFieldValuesView, KeyOperation,
    SelectResult, RAW_KEY_OPERATION_DEL, RAW_KEY_OPERATION_SET, RAW_SELECT_DATA, RAW_SELECT_SIGNAL,
    RAW_SELECT_TIMEOUT,
};
pub use round_trip::{
    field_values_copied, lemma_empty_arrays_decode_to_nothing, lemma_record_round_trip,
    lemma_records_round_trip, record_copied,
};
pub use testing::{
    fields_fit_operation, is_u64_numeral, lemma_hex_upper_has_no_nul, random_cxx_string,
    random_fvs, random_kfv, random_kfvs, random_port, random_string, random_unix_sock,
};
pub use zmq::{
    continues, guards_hold, last_held_handles, ProducerStateTable, RetentionList, ZmqClient, ZmqConsumerStateTable, ZmqProducerStateTable,
    ZmqServer,
};
