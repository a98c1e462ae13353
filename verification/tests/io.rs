use neko::errno::{Errno, EINTR, EIO, ENOSPC};
use neko::io::{
    write_all, write_all_begin, write_vectored, write_vectored_begin, WriteStep, WriteVector,
    ZERO_PROGRESS_WRITE_ERRNO,
};

#[test]
fn zero_progress_is_enospc() {
    assert_eq!(ZERO_PROGRESS_WRITE_ERRNO, ENOSPC);
}

#[test]
fn empty_buffer_is_never_written() {
    assert_eq!(write_all_begin(0), WriteStep::Done(Ok(())));
    assert_eq!(write_all_begin(5), WriteStep::Write(0));
}

#[test]
fn partial_writes_move_on() {
    assert_eq!(write_all(5, 0, Ok(2)), WriteStep::Write(2));
    assert_eq!(write_all(5, 2, Ok(2)), WriteStep::Write(4));
    assert_eq!(write_all(5, 4, Ok(1)), WriteStep::Done(Ok(())));
    assert_eq!(write_all(5, 0, Ok(5)), WriteStep::Done(Ok(())));
}

#[test]
fn interrupted_write_is_repeated() {
    assert_eq!(write_all(5, 2, Err(Errno(EINTR))), WriteStep::Write(2));
}

#[test]
fn other_error_ends_write() {
    assert_eq!(write_all(5, 2, Err(Errno(EIO))), WriteStep::Done(Err(Errno(EIO))));
}

#[test]
fn zero_write_ends_with_enospc() {
    assert_eq!(write_all(5, 1, Ok(0)), WriteStep::Done(Err(Errno(ENOSPC))));
}

#[test]
fn over_reported_write_finishes() {
    assert_eq!(write_all(5, 3, Ok(10)), WriteStep::Done(Ok(())));
    assert_eq!(write_all(5, 3, Ok(usize::MAX)), WriteStep::Done(Ok(())));
}

/// Runs the write loop against a device that accepts at most `chunk`
/// bytes per call and is interrupted on every other call.
fn run_write_all(buffer: &[u8], chunk: usize) -> (Vec<u8>, Result<(), Errno>, usize) {
    let mut device = Vec::new();
    let mut calls = 0;
    let mut interrupt = true;
    let mut step = write_all_begin(buffer.len());
    loop {
        match step {
            WriteStep::Done(result) => return (device, result, calls),
            WriteStep::Write(offset) => {
                calls += 1;
                let outcome = if interrupt {
                    Err(Errno(EINTR))
                } else {
                    let n = chunk.min(buffer.len() - offset);
                    device.extend_from_slice(&buffer[offset..offset + n]);
                    Ok(n)
                };
                interrupt = !interrupt;
                step = write_all(buffer.len(), offset, outcome);
            }
        }
    }
}

#[test]
fn whole_buffer_reaches_device() {
    let buffer: Vec<u8> = (0..=255).collect();
    let (device, result, calls) = run_write_all(&buffer, 7);
    assert_eq!(result, Ok(()));
    assert_eq!(device, buffer);
    assert_eq!(calls, 2 * 37);
    let (device, result, calls) = run_write_all(&[], 7);
    assert_eq!((device, result, calls), (Vec::new(), Ok(()), 0));
}

fn contents(vectors: &[WriteVector<'_>]) -> Vec<Vec<u8>> {
    vectors.iter().map(|v| v.as_slice().to_vec()).collect()
}

#[test]
fn vector_accessors() {
    let data: &[u8] = b"abc";
    let vector = WriteVector::from_slice(data);
    assert_eq!(vector.len(), 3);
    assert_eq!(vector.as_slice(), b"abc");
}

#[test]
fn empty_vector_list_is_never_written() {
    let vectors: Vec<WriteVector<'_>> = Vec::new();
    assert_eq!(write_vectored_begin(&vectors), WriteStep::Done(Ok(())));
}

#[test]
fn vectored_write_skips_and_shortens() {
    let mut vectors = vec![
        WriteVector::from_slice(b"ab"),
        WriteVector::from_slice(b"cde"),
        WriteVector::from_slice(b"f"),
    ];
    assert_eq!(write_vectored_begin(&vectors), WriteStep::Write(0));
    assert_eq!(write_vectored(&mut vectors, 0, Ok(3)), WriteStep::Write(1));
    assert_eq!(contents(&vectors), vec![b"ab".to_vec(), b"de".to_vec(), b"f".to_vec()]);
    assert_eq!(write_vectored(&mut vectors, 1, Ok(3)), WriteStep::Done(Ok(())));
    assert_eq!(contents(&vectors), vec![b"ab".to_vec(), b"de".to_vec(), b"f".to_vec()]);
}

#[test]
fn vectored_write_at_vector_end() {
    let mut vectors = vec![WriteVector::from_slice(b"ab"), WriteVector::from_slice(b"cd")];
    assert_eq!(write_vectored(&mut vectors, 0, Ok(2)), WriteStep::Write(1));
    assert_eq!(contents(&vectors), vec![b"ab".to_vec(), b"cd".to_vec()]);
}

#[test]
fn leading_empty_vector_is_skipped() {
    let mut vectors = vec![WriteVector::from_slice(b""), WriteVector::from_slice(b"abc")];
    assert_eq!(write_vectored(&mut vectors, 0, Ok(3)), WriteStep::Done(Ok(())));
}

#[test]
fn trailing_empty_vector_gives_zero_progress() {
    let mut vectors = vec![WriteVector::from_slice(b"abc"), WriteVector::from_slice(b"")];
    assert_eq!(write_vectored(&mut vectors, 0, Ok(3)), WriteStep::Write(1));
    assert_eq!(write_vectored(&mut vectors, 1, Ok(0)), WriteStep::Done(Err(Errno(ENOSPC))));
}

#[test]
fn vectored_errors() {
    let mut vectors = vec![WriteVector::from_slice(b"abc")];
    assert_eq!(write_vectored(&mut vectors, 0, Err(Errno(EINTR))), WriteStep::Write(0));
    assert_eq!(write_vectored(&mut vectors, 0, Err(Errno(EIO))), WriteStep::Done(Err(Errno(EIO))));
    assert_eq!(contents(&vectors), vec![b"abc".to_vec()]);
}

#[test]
fn advancing_drops_exactly_the_written_bytes() {
    let pieces: [&[u8]; 4] = [b"neko: ", b"", b"file", b": error\n"];
    let all: Vec<u8> = pieces.concat();
    for written in 1..=all.len() {
        let mut vectors: Vec<WriteVector<'_>> = pieces.iter().map(|p| WriteVector::from_slice(p)).collect();
        let position = match write_vectored(&mut vectors, 0, Ok(written)) {
            WriteStep::Write(position) => position,
            WriteStep::Done(result) => {
                assert_eq!(result, Ok(()));
                vectors.len()
            }
        };
        let left: Vec<u8> = contents(&vectors[position..]).concat();
        assert_eq!(left, all[written..].to_vec(), "{written}");
    }
}

#[test]
fn vectors_stay_suffixes_of_originals() {
    let pieces: [&[u8]; 5] = [b"ab", b"", b"cdef", b"g", b"hij"];
    let total: usize = pieces.iter().map(|p| p.len()).sum();
    for first in 1..=total {
        for second in 1..=total {
            let mut vectors: Vec<WriteVector<'_>> = pieces.iter().map(|p| WriteVector::from_slice(p)).collect();
            let mut offset = 0;
            for written in [first, second] {
                if offset >= vectors.len() {
                    break;
                }
                let left: usize = vectors[offset..].iter().map(|v| v.len()).sum();
                if written > left {
                    break;
                }
                let before = contents(&vectors);
                let step = write_vectored(&mut vectors, offset, Ok(written));
                let after = contents(&vectors);
                let position = match step {
                    WriteStep::Write(position) => position,
                    WriteStep::Done(_) => vectors.len(),
                };
                for (i, (now, original)) in after.iter().zip(pieces.iter()).enumerate() {
                    assert!(original.ends_with(now), "{first} {second} {i}");
                    if i != position {
                        assert_eq!(now, &before[i], "{first} {second} {i}");
                    }
                }
                offset = position;
            }
        }
    }
}
