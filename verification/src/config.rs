//! The options of the five kinds of server, read from the JSON document that
//! the `*_create` bindings receive. Members are read in a fixed order; the
//! first one that cannot be read is the error.
use vstd::prelude::*;
use crate::json::{field, JsonNumber, JsonValue};
use crate::options::{
    get_bool, get_str, get_u16, get_u32, get_u64, get_u8, get_usize, problem_of,
    read_flag, read_text, read_u16, read_u32, read_u64, read_u8, read_usize, reports,
    OptionError, OptionProblem,
};

verus! {

/// The options of a HTTP/1.1 server.
#[derive(Debug)]
pub struct Http1Opts {
    pub allow_empty_files: bool,
    pub block_size_kb: usize,
    pub charset: String,
    pub compression: bool,
    pub keep_alive: u8,
    pub keep_extensions: bool,
    pub max_fields: u32,
    pub max_fields_size_total_mb: usize,
    pub max_files: u32,
    pub max_files_size_total_mb: usize,
    pub max_file_size_mb: usize,
    pub port: u16,
    pub storage_path: String,
    pub thread_limit: u64,
}

/// The first member of a HTTP/1.1 options document that cannot be read.
pub open spec fn http1_opts_problem(o: JsonValue) -> Option<(Seq<char>, OptionProblem)> {
    let p0 = problem_of("allow_empty_files"@, read_flag(o, "allow_empty_files"@));
    let p1 = problem_of("block_size_kb"@, read_usize(o, "block_size_kb"@));
    let p2 = problem_of("charset"@, read_text(o, "charset"@));
    let p3 = problem_of("compression"@, read_flag(o, "compression"@));
    let p4 = problem_of("keep_alive"@, read_u8(o, "keep_alive"@));
    let p5 = problem_of("keep_extensions"@, read_flag(o, "keep_extensions"@));
    let p6 = problem_of("max_fields"@, read_u32(o, "max_fields"@));
    let p7 = problem_of("max_fields_size_total_mb"@, read_usize(o, "max_fields_size_total_mb"@));
    let p8 = problem_of("max_files"@, read_u32(o, "max_files"@));
    let p9 = problem_of("max_files_size_total_mb"@, read_usize(o, "max_files_size_total_mb"@));
    let p10 = problem_of("max_file_size_mb"@, read_usize(o, "max_file_size_mb"@));
    let p11 = problem_of("port"@, read_u16(o, "port"@));
    let p12 = problem_of("storage_path"@, read_text(o, "storage_path"@));
    let p13 = problem_of("thread_limit"@, read_u64(o, "thread_limit"@));
    if p0 is Some {
        p0
    } else if p1 is Some {
        p1
    } else if p2 is Some {
        p2
    } else if p3 is Some {
        p3
    } else if p4 is Some {
        p4
    } else if p5 is Some {
        p5
    } else if p6 is Some {
        p6
    } else if p7 is Some {
        p7
    } else if p8 is Some {
        p8
    } else if p9 is Some {
        p9
    } else if p10 is Some {
        p10
    } else if p11 is Some {
        p11
    } else if p12 is Some {
        p12
    } else if p13 is Some {
        p13
    } else {
        None
    }
}

/// `v` holds the members of a HTTP/1.1 options document that reads without problem.
pub open spec fn http1_opts_read_from(v: Http1Opts, o: JsonValue) -> bool {
    &&& Ok::<bool, OptionProblem>(v.allow_empty_files) == read_flag(o, "allow_empty_files"@)
    &&& Ok::<u64, OptionProblem>(v.block_size_kb as u64) == read_usize(o, "block_size_kb"@)
    &&& Ok::<Seq<char>, OptionProblem>(v.charset@) == read_text(o, "charset"@)
    &&& Ok::<bool, OptionProblem>(v.compression) == read_flag(o, "compression"@)
    &&& Ok::<u64, OptionProblem>(v.keep_alive as u64) == read_u8(o, "keep_alive"@)
    &&& Ok::<bool, OptionProblem>(v.keep_extensions) == read_flag(o, "keep_extensions"@)
    &&& Ok::<u64, OptionProblem>(v.max_fields as u64) == read_u32(o, "max_fields"@)
    &&& Ok::<u64, OptionProblem>(v.max_fields_size_total_mb as u64) == read_usize(o, "max_fields_size_total_mb"@)
    &&& Ok::<u64, OptionProblem>(v.max_files as u64) == read_u32(o, "max_files"@)
    &&& Ok::<u64, OptionProblem>(v.max_files_size_total_mb as u64) == read_usize(o, "max_files_size_total_mb"@)
    &&& Ok::<u64, OptionProblem>(v.max_file_size_mb as u64) == read_usize(o, "max_file_size_mb"@)
    &&& Ok::<u64, OptionProblem>(v.port as u64) == read_u16(o, "port"@)
    &&& Ok::<Seq<char>, OptionProblem>(v.storage_path@) == read_text(o, "storage_path"@)
    &&& Ok::<u64, OptionProblem>(v.thread_limit) == read_u64(o, "thread_limit"@)
}

impl Http1Opts {
    /// Reads the options from the document, member by member in the order above.
    pub fn from_json(o: &JsonValue) -> (r: Result<Http1Opts, OptionError>)
        ensures
            r is Ok <==> http1_opts_problem(*o) is None,
            r matches Ok(v) ==> http1_opts_read_from(v, *o),
            r matches Err(e) ==> reports(e, http1_opts_problem(*o)),
    {
        let allow_empty_files = get_bool(o, "allow_empty_files")?;
        let block_size_kb = get_usize(o, "block_size_kb")?;
        let charset = get_str(o, "charset")?;
        let compression = get_bool(o, "compression")?;
        let keep_alive = get_u8(o, "keep_alive")?;
        let keep_extensions = get_bool(o, "keep_extensions")?;
        let max_fields = get_u32(o, "max_fields")?;
        let max_fields_size_total_mb = get_usize(o, "max_fields_size_total_mb")?;
        let max_files = get_u32(o, "max_files")?;
        let max_files_size_total_mb = get_usize(o, "max_files_size_total_mb")?;
        let max_file_size_mb = get_usize(o, "max_file_size_mb")?;
        let port = get_u16(o, "port")?;
        let storage_path = get_str(o, "storage_path")?;
        let thread_limit = get_u64(o, "thread_limit")?;
        Ok(Http1Opts {
            allow_empty_files,
            block_size_kb,
            charset,
            compression,
            keep_alive,
            keep_extensions,
            max_fields,
            max_fields_size_total_mb,
            max_files,
            max_files_size_total_mb,
            max_file_size_mb,
            port,
            storage_path,
            thread_limit,
        })
    }
}

/// The options of a HTTP/2 server.
#[derive(Debug)]
pub struct Http2Opts {
    pub allow_empty_files: bool,
    pub block_size_kb: usize,
    pub charset: String,
    pub cert_pem: String,
    pub compression: bool,
    pub keep_alive: u8,
    pub keep_extensions: bool,
    pub key_pem: String,
    pub max_fields: u32,
    pub max_fields_size_total_mb: usize,
    pub max_files: u32,
    pub max_files_size_total_mb: usize,
    pub max_file_size_mb: usize,
    pub port: u16,
    pub storage_path: String,
    pub thread_limit: u64,
}

/// The first member of a HTTP/2 options document that cannot be read.
pub open spec fn http2_opts_problem(o: JsonValue) -> Option<(Seq<char>, OptionProblem)> {
    let p0 = problem_of("allow_empty_files"@, read_flag(o, "allow_empty_files"@));
    let p1 = problem_of("block_size_kb"@, read_usize(o, "block_size_kb"@));
    let p2 = problem_of("charset"@, read_text(o, "charset"@));
    let p3 = problem_of("cert_pem"@, read_text(o, "cert_pem"@));
    let p4 = problem_of("compression"@, read_flag(o, "compression"@));
    let p5 = problem_of("keep_alive"@, read_u8(o, "keep_alive"@));
    let p6 = problem_of("keep_extensions"@, read_flag(o, "keep_extensions"@));
    let p7 = problem_of("key_pem"@, read_text(o, "key_pem"@));
    let p8 = problem_of("max_fields"@, read_u32(o, "max_fields"@));
    let p9 = problem_of("max_fields_size_total_mb"@, read_usize(o, "max_fields_size_total_mb"@));
    let p10 = problem_of("max_files"@, read_u32(o, "max_files"@));
    let p11 = problem_of("max_files_size_total_mb"@, read_usize(o, "max_files_size_total_mb"@));
    let p12 = problem_of("max_file_size_mb"@, read_usize(o, "max_file_size_mb"@));
    let p13 = problem_of("port"@, read_u16(o, "port"@));
    let p14 = problem_of("storage_path"@, read_text(o, "storage_path"@));
    let p15 = problem_of("thread_limit"@, read_u64(o, "thread_limit"@));
    if p0 is Some {
        p0
    } else if p1 is Some {
        p1
    } else if p2 is Some {
        p2
    } else if p3 is Some {
        p3
    } else if p4 is Some {
        p4
    } else if p5 is Some {
        p5
    } else if p6 is Some {
        p6
    } else if p7 is Some {
        p7
    } else if p8 is Some {
        p8
    } else if p9 is Some {
        p9
    } else if p10 is Some {
        p10
    } else if p11 is Some {
        p11
    } else if p12 is Some {
        p12
    } else if p13 is Some {
        p13
    } else if p14 is Some {
        p14
    } else if p15 is Some {
        p15
    } else {
        None
    }
}

/// `v` holds the members of a HTTP/2 options document that reads without problem.
pub open spec fn http2_opts_read_from(v: Http2Opts, o: JsonValue) -> bool {
    &&& Ok::<bool, OptionProblem>(v.allow_empty_files) == read_flag(o, "allow_empty_files"@)
    &&& Ok::<u64, OptionProblem>(v.block_size_kb as u64) == read_usize(o, "block_size_kb"@)
    &&& Ok::<Seq<char>, OptionProblem>(v.charset@) == read_text(o, "charset"@)
    &&& Ok::<Seq<char>, OptionProblem>(v.cert_pem@) == read_text(o, "cert_pem"@)
    &&& Ok::<bool, OptionProblem>(v.compression) == read_flag(o, "compression"@)
    &&& Ok::<u64, OptionProblem>(v.keep_alive as u64) == read_u8(o, "keep_alive"@)
    &&& Ok::<bool, OptionProblem>(v.keep_extensions) == read_flag(o, "keep_extensions"@)
    &&& Ok::<Seq<char>, OptionProblem>(v.key_pem@) == read_text(o, "key_pem"@)
    &&& Ok::<u64, OptionProblem>(v.max_fields as u64) == read_u32(o, "max_fields"@)
    &&& Ok::<u64, OptionProblem>(v.max_fields_size_total_mb as u64) == read_usize(o, "max_fields_size_total_mb"@)
    &&& Ok::<u64, OptionProblem>(v.max_files as u64) == read_u32(o, "max_files"@)
    &&& Ok::<u64, OptionProblem>(v.max_files_size_total_mb as u64) == read_usize(o, "max_files_size_total_mb"@)
    &&& Ok::<u64, OptionProblem>(v.max_file_size_mb as u64) == read_usize(o, "max_file_size_mb"@)
    &&& Ok::<u64, OptionProblem>(v.port as u64) == read_u16(o, "port"@)
    &&& Ok::<Seq<char>, OptionProblem>(v.storage_path@) == read_text(o, "storage_path"@)
    &&& Ok::<u64, OptionProblem>(v.thread_limit) == read_u64(o, "thread_limit"@)
}

impl Http2Opts {
    /// Reads the options from the document, member by member in the order above.
    pub fn from_json(o: &JsonValue) -> (r: Result<Http2Opts, OptionError>)
        ensures
            r is Ok <==> http2_opts_problem(*o) is None,
            r matches Ok(v) ==> http2_opts_read_from(v, *o),
            r matches Err(e) ==> reports(e, http2_opts_problem(*o)),
    {
        let allow_empty_files = get_bool(o, "allow_empty_files")?;
        let block_size_kb = get_usize(o, "block_size_kb")?;
        let charset = get_str(o, "charset")?;
        let cert_pem = get_str(o, "cert_pem")?;
        let compression = get_bool(o, "compression")?;
        let keep_alive = get_u8(o, "keep_alive")?;
        let keep_extensions = get_bool(o, "keep_extensions")?;
        let key_pem = get_str(o, "key_pem")?;
        let max_fields = get_u32(o, "max_fields")?;
        let max_fields_size_total_mb = get_usize(o, "max_fields_size_total_mb")?;
        let max_files = get_u32(o, "max_files")?;
        let max_files_size_total_mb = get_usize(o, "max_files_size_total_mb")?;
        let max_file_size_mb = get_usize(o, "max_file_size_mb")?;
        let port = get_u16(o, "port")?;
        let storage_path = get_str(o, "storage_path")?;
        let thread_limit = get_u64(o, "thread_limit")?;
        Ok(Http2Opts {
            allow_empty_files,
            block_size_kb,
            charset,
            cert_pem,
            compression,
            keep_alive,
            keep_extensions,
            key_pem,
            max_fields,
            max_fields_size_total_mb,
            max_files,
            max_files_size_total_mb,
            max_file_size_mb,
            port,
            storage_path,
            thread_limit,
        })
    }
}

/// The options of a WebSocket server.
#[derive(Debug)]
pub struct WebSocketOpts {
    pub block_size_kb: usize,
    pub compression: bool,
    pub handshake_timeout: u64,
    pub max_message_size_kb: u64,
    pub ping_timeout: u64,
    pub port: u16,
    pub send_timeout: u64,
    pub thread_limit: u64,
}

/// The first member of a WebSocket options document that cannot be read.
pub open spec fn web_socket_opts_problem(o: JsonValue) -> Option<(Seq<char>, OptionProblem)> {
    let p0 = problem_of("block_size_kb"@, read_usize(o, "block_size_kb"@));
    let p1 = problem_of("compression"@, read_flag(o, "compression"@));
    let p2 = problem_of("handshake_timeout"@, read_u64(o, "handshake_timeout"@));
    let p3 = problem_of("max_message_size_kb"@, read_u64(o, "max_message_size_kb"@));
    let p4 = problem_of("ping_timeout"@, read_u64(o, "ping_timeout"@));
    let p5 = problem_of("port"@, read_u16(o, "port"@));
    let p6 = problem_of("send_timeout"@, read_u64(o, "send_timeout"@));
    let p7 = problem_of("thread_limit"@, read_u64(o, "thread_limit"@));
    if p0 is Some {
        p0
    } else if p1 is Some {
        p1
    } else if p2 is Some {
        p2
    } else if p3 is Some {
        p3
    } else if p4 is Some {
        p4
    } else if p5 is Some {
        p5
    } else if p6 is Some {
        p6
    } else if p7 is Some {
        p7
    } else {
        None
    }
}

/// `v` holds the members of a WebSocket options document that reads without problem.
pub open spec fn web_socket_opts_read_from(v: WebSocketOpts, o: JsonValue) -> bool {
    &&& Ok::<u64, OptionProblem>(v.block_size_kb as u64) == read_usize(o, "block_size_kb"@)
    &&& Ok::<bool, OptionProblem>(v.compression) == read_flag(o, "compression"@)
    &&& Ok::<u64, OptionProblem>(v.handshake_timeout) == read_u64(o, "handshake_timeout"@)
    &&& Ok::<u64, OptionProblem>(v.max_message_size_kb) == read_u64(o, "max_message_size_kb"@)
    &&& Ok::<u64, OptionProblem>(v.ping_timeout) == read_u64(o, "ping_timeout"@)
    &&& Ok::<u64, OptionProblem>(v.port as u64) == read_u16(o, "port"@)
    &&& Ok::<u64, OptionProblem>(v.send_timeout) == read_u64(o, "send_timeout"@)
    &&& Ok::<u64, OptionProblem>(v.thread_limit) == read_u64(o, "thread_limit"@)
}

impl WebSocketOpts {
    /// Reads the options from the document, member by member in the order above.
    pub fn from_json(o: &JsonValue) -> (r: Result<WebSocketOpts, OptionError>)
        ensures
            r is Ok <==> web_socket_opts_problem(*o) is None,
            r matches Ok(v) ==> web_socket_opts_read_from(v, *o),
            r matches Err(e) ==> reports(e, web_socket_opts_problem(*o)),
    {
        let block_size_kb = get_usize(o, "block_size_kb")?;
        let compression = get_bool(o, "compression")?;
        let handshake_timeout = get_u64(o, "handshake_timeout")?;
        let max_message_size_kb = get_u64(o, "max_message_size_kb")?;
        let ping_timeout = get_u64(o, "ping_timeout")?;
        let port = get_u16(o, "port")?;
        let send_timeout = get_u64(o, "send_timeout")?;
        let thread_limit = get_u64(o, "thread_limit")?;
        Ok(WebSocketOpts {
            block_size_kb,
            compression,
            handshake_timeout,
            max_message_size_kb,
            ping_timeout,
            port,
            send_timeout,
            thread_limit,
        })
    }
}

/// The options of a HTTP/3 server.
#[derive(Debug)]
pub struct Http3Opts {
    pub allow_empty_files: bool,
    pub block_size_kb: usize,
    pub cert_pem: String,
    pub charset: String,
    pub compression: bool,
    pub keep_alive: u8,
    pub keep_extensions: bool,
    pub key_pem: String,
    pub max_fields: u32,
    pub max_fields_size_total_mb: usize,
    pub max_files: u32,
    pub max_files_size_total_mb: usize,
    pub max_file_size_mb: usize,
    pub port: u16,
    pub storage_path: String,
    pub thread_limit: u64,
}

/// The first member of a HTTP/3 options document that cannot be read.
pub open spec fn http3_opts_problem(o: JsonValue) -> Option<(Seq<char>, OptionProblem)> {
    let p0 = problem_of("allow_empty_files"@, read_flag(o, "allow_empty_files"@));
    let p1 = problem_of("block_size_kb"@, read_usize(o, "block_size_kb"@));
    let p2 = problem_of("cert_pem"@, read_text(o, "cert_pem"@));
    let p3 = problem_of("charset"@, read_text(o, "charset"@));
    let p4 = problem_of("compression"@, read_flag(o, "compression"@));
    let p5 = problem_of("keep_alive"@, read_u8(o, "keep_alive"@));
    let p6 = problem_of("keep_extensions"@, read_flag(o, "keep_extensions"@));
    let p7 = problem_of("key_pem"@, read_text(o, "key_pem"@));
    let p8 = problem_of("max_fields"@, read_u32(o, "max_fields"@));
    let p9 = problem_of("max_fields_size_total_mb"@, read_usize(o, "max_fields_size_total_mb"@));
    let p10 = problem_of("max_files"@, read_u32(o, "max_files"@));
    let p11 = problem_of("max_files_size_total_mb"@, read_usize(o, "max_files_size_total_mb"@));
    let p12 = problem_of("max_file_size_mb"@, read_usize(o, "max_file_size_mb"@));
    let p13 = problem_of("port"@, read_u16(o, "port"@));
    let p14 = problem_of("storage_path"@, read_text(o, "storage_path"@));
    let p15 = problem_of("thread_limit"@, read_u64(o, "thread_limit"@));
    if p0 is Some {
        p0
    } else if p1 is Some {
        p1
    } else if p2 is Some {
        p2
    } else if p3 is Some {
        p3
    } else if p4 is Some {
        p4
    } else if p5 is Some {
        p5
    } else if p6 is Some {
        p6
    } else if p7 is Some {
        p7
    } else if p8 is Some {
        p8
    } else if p9 is Some {
        p9
    } else if p10 is Some {
        p10
    } else if p11 is Some {
        p11
    } else if p12 is Some {
        p12
    } else if p13 is Some {
        p13
    } else if p14 is Some {
        p14
    } else if p15 is Some {
        p15
    } else {
        None
    }
}

/// `v` holds the members of a HTTP/3 options document that reads without problem.
pub open spec fn http3_opts_read_from(v: Http3Opts, o: JsonValue) -> bool {
    &&& Ok::<bool, OptionProblem>(v.allow_empty_files) == read_flag(o, "allow_empty_files"@)
    &&& Ok::<u64, OptionProblem>(v.block_size_kb as u64) == read_usize(o, "block_size_kb"@)
    &&& Ok::<Seq<char>, OptionProblem>(v.cert_pem@) == read_text(o, "cert_pem"@)
    &&& Ok::<Seq<char>, OptionProblem>(v.charset@) == read_text(o, "charset"@)
    &&& Ok::<bool, OptionProblem>(v.compression) == read_flag(o, "compression"@)
    &&& Ok::<u64, OptionProblem>(v.keep_alive as u64) == read_u8(o, "keep_alive"@)
    &&& Ok::<bool, OptionProblem>(v.keep_extensions) == read_flag(o, "keep_extensions"@)
    &&& Ok::<Seq<char>, OptionProblem>(v.key_pem@) == read_text(o, "key_pem"@)
    &&& Ok::<u64, OptionProblem>(v.max_fields as u64) == read_u32(o, "max_fields"@)
    &&& Ok::<u64, OptionProblem>(v.max_fields_size_total_mb as u64) == read_usize(o, "max_fields_size_total_mb"@)
    &&& Ok::<u64, OptionProblem>(v.max_files as u64) == read_u32(o, "max_files"@)
    &&& Ok::<u64, OptionProblem>(v.max_files_size_total_mb as u64) == read_usize(o, "max_files_size_total_mb"@)
    &&& Ok::<u64, OptionProblem>(v.max_file_size_mb as u64) == read_usize(o, "max_file_size_mb"@)
    &&& Ok::<u64, OptionProblem>(v.port as u64) == read_u16(o, "port"@)
    &&& Ok::<Seq<char>, OptionProblem>(v.storage_path@) == read_text(o, "storage_path"@)
    &&& Ok::<u64, OptionProblem>(v.thread_limit) == read_u64(o, "thread_limit"@)
}

impl Http3Opts {
    /// Reads the options from the document, member by member in the order above.
    pub fn from_json(o: &JsonValue) -> (r: Result<Http3Opts, OptionError>)
        ensures
            r is Ok <==> http3_opts_problem(*o) is None,
            r matches Ok(v) ==> http3_opts_read_from(v, *o),
            r matches Err(e) ==> reports(e, http3_opts_problem(*o)),
    {
        let allow_empty_files = get_bool(o, "allow_empty_files")?;
        let block_size_kb = get_usize(o, "block_size_kb")?;
        let cert_pem = get_str(o, "cert_pem")?;
        let charset = get_str(o, "charset")?;
        let compression = get_bool(o, "compression")?;
        let keep_alive = get_u8(o, "keep_alive")?;
        let keep_extensions = get_bool(o, "keep_extensions")?;
        let key_pem = get_str(o, "key_pem")?;
        let max_fields = get_u32(o, "max_fields")?;
        let max_fields_size_total_mb = get_usize(o, "max_fields_size_total_mb")?;
        let max_files = get_u32(o, "max_files")?;
        let max_files_size_total_mb = get_usize(o, "max_files_size_total_mb")?;
        let max_file_size_mb = get_usize(o, "max_file_size_mb")?;
        let port = get_u16(o, "port")?;
        let storage_path = get_str(o, "storage_path")?;
        let thread_limit = get_u64(o, "thread_limit")?;
        Ok(Http3Opts {
            allow_empty_files,
            block_size_kb,
            cert_pem,
            charset,
            compression,
            keep_alive,
            keep_extensions,
            key_pem,
            max_fields,
            max_fields_size_total_mb,
            max_files,
            max_files_size_total_mb,
            max_file_size_mb,
            port,
            storage_path,
            thread_limit,
        })
    }
}

/// The options of a WebTransport server.
#[derive(Debug)]
pub struct WebTransportOpts {
    pub block_size_kb: usize,
    pub cert_pem: String,
    pub compression: bool,
    pub handshake_timeout: u64,
    pub key_pem: String,
    pub max_message_size_kb: u64,
    pub ping_timeout: u64,
    pub port: u16,
    pub send_timeout: u64,
    pub thread_limit: u64,
}

/// The first member of a WebTransport options document that cannot be read.
pub open spec fn web_transport_opts_problem(o: JsonValue) -> Option<(Seq<char>, OptionProblem)> {
    let p0 = problem_of("block_size_kb"@, read_usize(o, "block_size_kb"@));
    let p1 = problem_of("cert_pem"@, read_text(o, "cert_pem"@));
    let p2 = problem_of("compression"@, read_flag(o, "compression"@));
    let p3 = problem_of("handshake_timeout"@, read_u64(o, "handshake_timeout"@));
    let p4 = problem_of("key_pem"@, read_text(o, "key_pem"@));
    let p5 = problem_of("max_message_size_kb"@, read_u64(o, "max_message_size_kb"@));
    let p6 = problem_of("ping_timeout"@, read_u64(o, "ping_timeout"@));
    let p7 = problem_of("port"@, read_u16(o, "port"@));
    let p8 = problem_of("send_timeout"@, read_u64(o, "send_timeout"@));
    let p9 = problem_of("thread_limit"@, read_u64(o, "thread_limit"@));
    if p0 is Some {
        p0
    } else if p1 is Some {
        p1
    } else if p2 is Some {
        p2
    } else if p3 is Some {
        p3
    } else if p4 is Some {
        p4
    } else if p5 is Some {
        p5
    } else if p6 is Some {
        p6
    } else if p7 is Some {
        p7
    } else if p8 is Some {
        p8
    } else if p9 is Some {
        p9
    } else {
        None
    }
}

/// `v` holds the members of a WebTransport options document that reads without problem.
pub open spec fn web_transport_opts_read_from(v: WebTransportOpts, o: JsonValue) -> bool {
    &&& Ok::<u64, OptionProblem>(v.block_size_kb as u64) == read_usize(o, "block_size_kb"@)
    &&& Ok::<Seq<char>, OptionProblem>(v.cert_pem@) == read_text(o, "cert_pem"@)
    &&& Ok::<bool, OptionProblem>(v.compression) == read_flag(o, "compression"@)
    &&& Ok::<u64, OptionProblem>(v.handshake_timeout) == read_u64(o, "handshake_timeout"@)
    &&& Ok::<Seq<char>, OptionProblem>(v.key_pem@) == read_text(o, "key_pem"@)
    &&& Ok::<u64, OptionProblem>(v.max_message_size_kb) == read_u64(o, "max_message_size_kb"@)
    &&& Ok::<u64, OptionProblem>(v.ping_timeout) == read_u64(o, "ping_timeout"@)
    &&& Ok::<u64, OptionProblem>(v.port as u64) == read_u16(o, "port"@)
    &&& Ok::<u64, OptionProblem>(v.send_timeout) == read_u64(o, "send_timeout"@)
    &&& Ok::<u64, OptionProblem>(v.thread_limit) == read_u64(o, "thread_limit"@)
}

impl WebTransportOpts {
    /// Reads the options from the document, member by member in the order above.
    pub fn from_json(o: &JsonValue) -> (r: Result<WebTransportOpts, OptionError>)
        ensures
            r is Ok <==> web_transport_opts_problem(*o) is None,
            r matches Ok(v) ==> web_transport_opts_read_from(v, *o),
            r matches Err(e) ==> reports(e, web_transport_opts_problem(*o)),
    {
        let block_size_kb = get_usize(o, "block_size_kb")?;
        let cert_pem = get_str(o, "cert_pem")?;
        let compression = get_bool(o, "compression")?;
        let handshake_timeout = get_u64(o, "handshake_timeout")?;
        let key_pem = get_str(o, "key_pem")?;
        let max_message_size_kb = get_u64(o, "max_message_size_kb")?;
        let ping_timeout = get_u64(o, "ping_timeout")?;
        let port = get_u16(o, "port")?;
        let send_timeout = get_u64(o, "send_timeout")?;
        let thread_limit = get_u64(o, "thread_limit")?;
        Ok(WebTransportOpts {
            block_size_kb,
            cert_pem,
            compression,
            handshake_timeout,
            key_pem,
            max_message_size_kb,
            ping_timeout,
            port,
            send_timeout,
            thread_limit,
        })
    }
}

/// The options of one kind of server: how they are read from the JSON
/// document that `*_create` receives.
pub trait ServerOptions: Sized {
    /// The first member of the document that cannot be read, if any.
    spec fn options_problem(o: JsonValue) -> Option<(Seq<char>, OptionProblem)>;

    /// `self` holds the members of document `o`.
    spec fn options_read_from(self, o: JsonValue) -> bool;

    /// Reads the options from the document.
    fn read_options(o: &JsonValue) -> (r: Result<Self, OptionError>)
        ensures
            r is Ok <==> Self::options_problem(*o) is None,
            r matches Ok(v) ==> v.options_read_from(*o),
            r matches Err(e) ==> reports(e, Self::options_problem(*o)),
    ;
}

impl ServerOptions for Http1Opts {
    open spec fn options_problem(o: JsonValue) -> Option<(Seq<char>, OptionProblem)> {
        http1_opts_problem(o)
    }

    open spec fn options_read_from(self, o: JsonValue) -> bool {
        http1_opts_read_from(self, o)
    }

    fn read_options(o: &JsonValue) -> (r: Result<Self, OptionError>) {
        Http1Opts::from_json(o)
    }
}

impl ServerOptions for Http2Opts {
    open spec fn options_problem(o: JsonValue) -> Option<(Seq<char>, OptionProblem)> {
        http2_opts_problem(o)
    }

    open spec fn options_read_from(self, o: JsonValue) -> bool {
        http2_opts_read_from(self, o)
    }

    fn read_options(o: &JsonValue) -> (r: Result<Self, OptionError>) {
        Http2Opts::from_json(o)
    }
}

impl ServerOptions for WebSocketOpts {
    open spec fn options_problem(o: JsonValue) -> Option<(Seq<char>, OptionProblem)> {
        web_socket_opts_problem(o)
    }

    open spec fn options_read_from(self, o: JsonValue) -> bool {
        web_socket_opts_read_from(self, o)
    }

    fn read_options(o: &JsonValue) -> (r: Result<Self, OptionError>) {
        WebSocketOpts::from_json(o)
    }
}

impl ServerOptions for Http3Opts {
    open spec fn options_problem(o: JsonValue) -> Option<(Seq<char>, OptionProblem)> {
        http3_opts_problem(o)
    }

    open spec fn options_read_from(self, o: JsonValue) -> bool {
        http3_opts_read_from(self, o)
    }

    fn read_options(o: &JsonValue) -> (r: Result<Self, OptionError>) {
        Http3Opts::from_json(o)
    }
}

impl ServerOptions for WebTransportOpts {
    open spec fn options_problem(o: JsonValue) -> Option<(Seq<char>, OptionProblem)> {
        web_transport_opts_problem(o)
    }

    open spec fn options_read_from(self, o: JsonValue) -> bool {
        web_transport_opts_read_from(self, o)
    }

    fn read_options(o: &JsonValue) -> (r: Result<Self, OptionError>) {
        WebTransportOpts::from_json(o)
    }
}

/// Every option of a HTTP/1.1 server read from document `o` is the member of
/// `o` with the option's own name, holding the option's value: a boolean
/// as a JSON boolean, a number as a non-negative JSON integer, a text as a
/// JSON string.
pub proof fn law_http1_options_are_members(v: Http1Opts, o: JsonValue)
    requires
        http1_opts_read_from(v, o),
    ensures
        field(o, "allow_empty_files"@) == Some(JsonValue::Bool(v.allow_empty_files)),
        field(o, "block_size_kb"@) == Some(JsonValue::Number(JsonNumber::PosInt(v.block_size_kb as u64))),
        field(o, "charset"@) matches Some(JsonValue::String(s)) && s@ == v.charset@,
        field(o, "compression"@) == Some(JsonValue::Bool(v.compression)),
        field(o, "keep_alive"@) == Some(JsonValue::Number(JsonNumber::PosInt(v.keep_alive as u64))),
        field(o, "keep_extensions"@) == Some(JsonValue::Bool(v.keep_extensions)),
        field(o, "max_fields"@) == Some(JsonValue::Number(JsonNumber::PosInt(v.max_fields as u64))),
        field(o, "max_fields_size_total_mb"@) == Some(JsonValue::Number(JsonNumber::PosInt(v.max_fields_size_total_mb as u64))),
        field(o, "max_files"@) == Some(JsonValue::Number(JsonNumber::PosInt(v.max_files as u64))),
        field(o, "max_files_size_total_mb"@) == Some(JsonValue::Number(JsonNumber::PosInt(v.max_files_size_total_mb as u64))),
        field(o, "max_file_size_mb"@) == Some(JsonValue::Number(JsonNumber::PosInt(v.max_file_size_mb as u64))),
        field(o, "port"@) == Some(JsonValue::Number(JsonNumber::PosInt(v.port as u64))),
        field(o, "storage_path"@) matches Some(JsonValue::String(s)) && s@ == v.storage_path@,
        field(o, "thread_limit"@) == Some(JsonValue::Number(JsonNumber::PosInt(v.thread_limit as u64))),
{
}

/// Every option of a HTTP/2 server read from document `o` is the member of
/// `o` with the option's own name, holding the option's value: a boolean
/// as a JSON boolean, a number as a non-negative JSON integer, a text as a
/// JSON string.
pub proof fn law_http2_options_are_members(v: Http2Opts, o: JsonValue)
    requires
        http2_opts_read_from(v, o),
    ensures
        field(o, "allow_empty_files"@) == Some(JsonValue::Bool(v.allow_empty_files)),
        field(o, "block_size_kb"@) == Some(JsonValue::Number(JsonNumber::PosInt(v.block_size_kb as u64))),
        field(o, "charset"@) matches Some(JsonValue::String(s)) && s@ == v.charset@,
        field(o, "cert_pem"@) matches Some(JsonValue::String(s)) && s@ == v.cert_pem@,
        field(o, "compression"@) == Some(JsonValue::Bool(v.compression)),
        field(o, "keep_alive"@) == Some(JsonValue::Number(JsonNumber::PosInt(v.keep_alive as u64))),
        field(o, "keep_extensions"@) == Some(JsonValue::Bool(v.keep_extensions)),
        field(o, "key_pem"@) matches Some(JsonValue::String(s)) && s@ == v.key_pem@,
        field(o, "max_fields"@) == Some(JsonValue::Number(JsonNumber::PosInt(v.max_fields as u64))),
        field(o, "max_fields_size_total_mb"@) == Some(JsonValue::Number(JsonNumber::PosInt(v.max_fields_size_total_mb as u64))),
        field(o, "max_files"@) == Some(JsonValue::Number(JsonNumber::PosInt(v.max_files as u64))),
        field(o, "max_files_size_total_mb"@) == Some(JsonValue::Number(JsonNumber::PosInt(v.max_files_size_total_mb as u64))),
        field(o, "max_file_size_mb"@) == Some(JsonValue::Number(JsonNumber::PosInt(v.max_file_size_mb as u64))),
        field(o, "port"@) == Some(JsonValue::Number(JsonNumber::PosInt(v.port as u64))),
        field(o, "storage_path"@) matches Some(JsonValue::String(s)) && s@ == v.storage_path@,
        field(o, "thread_limit"@) == Some(JsonValue::Number(JsonNumber::PosInt(v.thread_limit as u64))),
{
}

/// Every option of a WebSocket server read from document `o` is the member of
/// `o` with the option's own name, holding the option's value: a boolean
/// as a JSON boolean, a number as a non-negative JSON integer, a text as a
/// JSON string.
pub proof fn law_web_socket_options_are_members(v: WebSocketOpts, o: JsonValue)
    requires
        web_socket_opts_read_from(v, o),
    ensures
        field(o, "block_size_kb"@) == Some(JsonValue::Number(JsonNumber::PosInt(v.block_size_kb as u64))),
        field(o, "compression"@) == Some(JsonValue::Bool(v.compression)),
        field(o, "handshake_timeout"@) == Some(JsonValue::Number(JsonNumber::PosInt(v.handshake_timeout as u64))),
        field(o, "max_message_size_kb"@) == Some(JsonValue::Number(JsonNumber::PosInt(v.max_message_size_kb as u64))),
        field(o, "ping_timeout"@) == Some(JsonValue::Number(JsonNumber::PosInt(v.ping_timeout as u64))),
        field(o, "port"@) == Some(JsonValue::Number(JsonNumber::PosInt(v.port as u64))),
        field(o, "send_timeout"@) == Some(JsonValue::Number(JsonNumber::PosInt(v.send_timeout as u64))),
        field(o, "thread_limit"@) == Some(JsonValue::Number(JsonNumber::PosInt(v.thread_limit as u64))),
{
}

/// Every option of a HTTP/3 server read from document `o` is the member of
/// `o` with the option's own name, holding the option's value: a boolean
/// as a JSON boolean, a number as a non-negative JSON integer, a text as a
/// JSON string.
pub proof fn law_http3_options_are_members(v: Http3Opts, o: JsonValue)
    requires
        http3_opts_read_from(v, o),
    ensures
        field(o, "allow_empty_files"@) == Some(JsonValue::Bool(v.allow_empty_files)),
        field(o, "block_size_kb"@) == Some(JsonValue::Number(JsonNumber::PosInt(v.block_size_kb as u64))),
        field(o, "cert_pem"@) matches Some(JsonValue::String(s)) && s@ == v.cert_pem@,
        field(o, "charset"@) matches Some(JsonValue::String(s)) && s@ == v.charset@,
        field(o, "compression"@) == Some(JsonValue::Bool(v.compression)),
        field(o, "keep_alive"@) == Some(JsonValue::Number(JsonNumber::PosInt(v.keep_alive as u64))),
        field(o, "keep_extensions"@) == Some(JsonValue::Bool(v.keep_extensions)),
        field(o, "key_pem"@) matches Some(JsonValue::String(s)) && s@ == v.key_pem@,
        field(o, "max_fields"@) == Some(JsonValue::Number(JsonNumber::PosInt(v.max_fields as u64))),
        field(o, "max_fields_size_total_mb"@) == Some(JsonValue::Number(JsonNumber::PosInt(v.max_fields_size_total_mb as u64))),
        field(o, "max_files"@) == Some(JsonValue::Number(JsonNumber::PosInt(v.max_files as u64))),
        field(o, "max_files_size_total_mb"@) == Some(JsonValue::Number(JsonNumber::PosInt(v.max_files_size_total_mb as u64))),
        field(o, "max_file_size_mb"@) == Some(JsonValue::Number(JsonNumber::PosInt(v.max_file_size_mb as u64))),
        field(o, "port"@) == Some(JsonValue::Number(JsonNumber::PosInt(v.port as u64))),
        field(o, "storage_path"@) matches Some(JsonValue::String(s)) && s@ == v.storage_path@,
        field(o, "thread_limit"@) == Some(JsonValue::Number(JsonNumber::PosInt(v.thread_limit as u64))),
{
}

/// Every option of a WebTransport server read from document `o` is the member of
/// `o` with the option's own name, holding the option's value: a boolean
/// as a JSON boolean, a number as a non-negative JSON integer, a text as a
/// JSON string.
pub proof fn law_web_transport_options_are_members(v: WebTransportOpts, o: JsonValue)
    requires
        web_transport_opts_read_from(v, o),
    ensures
        field(o, "block_size_kb"@) == Some(JsonValue::Number(JsonNumber::PosInt(v.block_size_kb as u64))),
        field(o, "cert_pem"@) matches Some(JsonValue::String(s)) && s@ == v.cert_pem@,
        field(o, "compression"@) == Some(JsonValue::Bool(v.compression)),
        field(o, "handshake_timeout"@) == Some(JsonValue::Number(JsonNumber::PosInt(v.handshake_timeout as u64))),
        field(o, "key_pem"@) matches Some(JsonValue::String(s)) && s@ == v.key_pem@,
        field(o, "max_message_size_kb"@) == Some(JsonValue::Number(JsonNumber::PosInt(v.max_message_size_kb as u64))),
        field(o, "ping_timeout"@) == Some(JsonValue::Number(JsonNumber::PosInt(v.ping_timeout as u64))),
        field(o, "port"@) == Some(JsonValue::Number(JsonNumber::PosInt(v.port as u64))),
        field(o, "send_timeout"@) == Some(JsonValue::Number(JsonNumber::PosInt(v.send_timeout as u64))),
        field(o, "thread_limit"@) == Some(JsonValue::Number(JsonNumber::PosInt(v.thread_limit as u64))),
{
}

/// A HTTP/1.1 options document reads without problem exactly when every
/// option is a member of it, of the right JSON type, and, for a number,
/// small enough for the option's integer type.
pub proof fn law_http1_document_reads_when_members_fit(o: JsonValue)
    ensures
        http1_opts_problem(o) is None <==> {
            &&& field(o, "allow_empty_files"@) matches Some(JsonValue::Bool(_))
            &&& field(o, "block_size_kb"@) matches Some(JsonValue::Number(JsonNumber::PosInt(n))) && n <= usize::MAX
            &&& field(o, "charset"@) matches Some(JsonValue::String(_))
            &&& field(o, "compression"@) matches Some(JsonValue::Bool(_))
            &&& field(o, "keep_alive"@) matches Some(JsonValue::Number(JsonNumber::PosInt(n))) && n <= u8::MAX
            &&& field(o, "keep_extensions"@) matches Some(JsonValue::Bool(_))
            &&& field(o, "max_fields"@) matches Some(JsonValue::Number(JsonNumber::PosInt(n))) && n <= u32::MAX
            &&& field(o, "max_fields_size_total_mb"@) matches Some(JsonValue::Number(JsonNumber::PosInt(n))) && n <= usize::MAX
            &&& field(o, "max_files"@) matches Some(JsonValue::Number(JsonNumber::PosInt(n))) && n <= u32::MAX
            &&& field(o, "max_files_size_total_mb"@) matches Some(JsonValue::Number(JsonNumber::PosInt(n))) && n <= usize::MAX
            &&& field(o, "max_file_size_mb"@) matches Some(JsonValue::Number(JsonNumber::PosInt(n))) && n <= usize::MAX
            &&& field(o, "port"@) matches Some(JsonValue::Number(JsonNumber::PosInt(n))) && n <= u16::MAX
            &&& field(o, "storage_path"@) matches Some(JsonValue::String(_))
            &&& field(o, "thread_limit"@) matches Some(JsonValue::Number(JsonNumber::PosInt(_)))
        },
{
}

/// A HTTP/2 options document reads without problem exactly when every
/// option is a member of it, of the right JSON type, and, for a number,
/// small enough for the option's integer type.
pub proof fn law_http2_document_reads_when_members_fit(o: JsonValue)
    ensures
        http2_opts_problem(o) is None <==> {
            &&& field(o, "allow_empty_files"@) matches Some(JsonValue::Bool(_))
            &&& field(o, "block_size_kb"@) matches Some(JsonValue::Number(JsonNumber::PosInt(n))) && n <= usize::MAX
            &&& field(o, "charset"@) matches Some(JsonValue::String(_))
            &&& field(o, "cert_pem"@) matches Some(JsonValue::String(_))
            &&& field(o, "compression"@) matches Some(JsonValue::Bool(_))
            &&& field(o, "keep_alive"@) matches Some(JsonValue::Number(JsonNumber::PosInt(n))) && n <= u8::MAX
            &&& field(o, "keep_extensions"@) matches Some(JsonValue::Bool(_))
            &&& field(o, "key_pem"@) matches Some(JsonValue::String(_))
            &&& field(o, "max_fields"@) matches Some(JsonValue::Number(JsonNumber::PosInt(n))) && n <= u32::MAX
            &&& field(o, "max_fields_size_total_mb"@) matches Some(JsonValue::Number(JsonNumber::PosInt(n))) && n <= usize::MAX
            &&& field(o, "max_files"@) matches Some(JsonValue::Number(JsonNumber::PosInt(n))) && n <= u32::MAX
            &&& field(o, "max_files_size_total_mb"@) matches Some(JsonValue::Number(JsonNumber::PosInt(n))) && n <= usize::MAX
            &&& field(o, "max_file_size_mb"@) matches Some(JsonValue::Number(JsonNumber::PosInt(n))) && n <= usize::MAX
            &&& field(o, "port"@) matches Some(JsonValue::Number(JsonNumber::PosInt(n))) && n <= u16::MAX
            &&& field(o, "storage_path"@) matches Some(JsonValue::String(_))
            &&& field(o, "thread_limit"@) matches Some(JsonValue::Number(JsonNumber::PosInt(_)))
        },
{
}

/// A WebSocket options document reads without problem exactly when every
/// option is a member of it, of the right JSON type, and, for a number,
/// small enough for the option's integer type.
pub proof fn law_web_socket_document_reads_when_members_fit(o: JsonValue)
    ensures
        web_socket_opts_problem(o) is None <==> {
            &&& field(o, "block_size_kb"@) matches Some(JsonValue::Number(JsonNumber::PosInt(n))) && n <= usize::MAX
            &&& field(o, "compression"@) matches Some(JsonValue::Bool(_))
            &&& field(o, "handshake_timeout"@) matches Some(JsonValue::Number(JsonNumber::PosInt(_)))
            &&& field(o, "max_message_size_kb"@) matches Some(JsonValue::Number(JsonNumber::PosInt(_)))
            &&& field(o, "ping_timeout"@) matches Some(JsonValue::Number(JsonNumber::PosInt(_)))
            &&& field(o, "port"@) matches Some(JsonValue::Number(JsonNumber::PosInt(n))) && n <= u16::MAX
            &&& field(o, "send_timeout"@) matches Some(JsonValue::Number(JsonNumber::PosInt(_)))
            &&& field(o, "thread_limit"@) matches Some(JsonValue::Number(JsonNumber::PosInt(_)))
        },
{
}

/// A HTTP/3 options document reads without problem exactly when every
/// option is a member of it, of the right JSON type, and, for a number,
/// small enough for the option's integer type.
pub proof fn law_http3_document_reads_when_members_fit(o: JsonValue)
    ensures
        http3_opts_problem(o) is None <==> {
            &&& field(o, "allow_empty_files"@) matches Some(JsonValue::Bool(_))
            &&& field(o, "block_size_kb"@) matches Some(JsonValue::Number(JsonNumber::PosInt(n))) && n <= usize::MAX
            &&& field(o, "cert_pem"@) matches Some(JsonValue::String(_))
            &&& field(o, "charset"@) matches Some(JsonValue::String(_))
            &&& field(o, "compression"@) matches Some(JsonValue::Bool(_))
            &&& field(o, "keep_alive"@) matches Some(JsonValue::Number(JsonNumber::PosInt(n))) && n <= u8::MAX
            &&& field(o, "keep_extensions"@) matches Some(JsonValue::Bool(_))
            &&& field(o, "key_pem"@) matches Some(JsonValue::String(_))
            &&& field(o, "max_fields"@) matches Some(JsonValue::Number(JsonNumber::PosInt(n))) && n <= u32::MAX
            &&& field(o, "max_fields_size_total_mb"@) matches Some(JsonValue::Number(JsonNumber::PosInt(n))) && n <= usize::MAX
            &&& field(o, "max_files"@) matches Some(JsonValue::Number(JsonNumber::PosInt(n))) && n <= u32::MAX
            &&& field(o, "max_files_size_total_mb"@) matches Some(JsonValue::Number(JsonNumber::PosInt(n))) && n <= usize::MAX
            &&& field(o, "max_file_size_mb"@) matches Some(JsonValue::Number(JsonNumber::PosInt(n))) && n <= usize::MAX
            &&& field(o, "port"@) matches Some(JsonValue::Number(JsonNumber::PosInt(n))) && n <= u16::MAX
            &&& field(o, "storage_path"@) matches Some(JsonValue::String(_))
            &&& field(o, "thread_limit"@) matches Some(JsonValue::Number(JsonNumber::PosInt(_)))
        },
{
}

/// A WebTransport options document reads without problem exactly when every
/// option is a member of it, of the right JSON type, and, for a number,
/// small enough for the option's integer type.
pub proof fn law_web_transport_document_reads_when_members_fit(o: JsonValue)
    ensures
        web_transport_opts_problem(o) is None <==> {
            &&& field(o, "block_size_kb"@) matches Some(JsonValue::Number(JsonNumber::PosInt(n))) && n <= usize::MAX
            &&& field(o, "cert_pem"@) matches Some(JsonValue::String(_))
            &&& field(o, "compression"@) matches Some(JsonValue::Bool(_))
            &&& field(o, "handshake_timeout"@) matches Some(JsonValue::Number(JsonNumber::PosInt(_)))
            &&& field(o, "key_pem"@) matches Some(JsonValue::String(_))
            &&& field(o, "max_message_size_kb"@) matches Some(JsonValue::Number(JsonNumber::PosInt(_)))
            &&& field(o, "ping_timeout"@) matches Some(JsonValue::Number(JsonNumber::PosInt(_)))
            &&& field(o, "port"@) matches Some(JsonValue::Number(JsonNumber::PosInt(n))) && n <= u16::MAX
            &&& field(o, "send_timeout"@) matches Some(JsonValue::Number(JsonNumber::PosInt(_)))
            &&& field(o, "thread_limit"@) matches Some(JsonValue::Number(JsonNumber::PosInt(_)))
        },
{
}

} // verus!
