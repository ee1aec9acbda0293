use bpfx::file::{FileFilter, FileMask, FileTypeFilter};
use bpfx::memory::{MemoryFilter, MemoryMask};
use bpfx::network::{NetworkFilter, NetworkMask, ProtocolMask};
use bpfx::process::{ProcessFilter, ProcessMask};
use bpfx::raw::{FileModeFilter, FilterKey};

#[test]
fn masks_contain_their_parts() {
    let both = ProcessMask::start() | ProcessMask::exit();
    assert!(both.contains(&ProcessMask::start()));
    assert!(both.contains(&ProcessMask::exit()));
    assert!(!both.contains(&ProcessMask::fork()));
    assert!(!both.contains(&ProcessMask::all()));
    assert!(ProcessMask::all().contains(&both));
    assert_eq!(both | ProcessMask::fork(), ProcessMask::all());

    let network = NetworkMask::connect() | NetworkMask::accept() | NetworkMask::close();
    assert!(!network.contains(&NetworkMask::bind()));
    assert_eq!(network | NetworkMask::bind() | NetworkMask::listen(), NetworkMask::all());
    assert_eq!(ProtocolMask::tcp() | ProtocolMask::udp(), ProtocolMask::all());
    assert!(!ProtocolMask::tcp().contains(&ProtocolMask::udp()));
    assert_eq!(MemoryMask::mmap() | MemoryMask::unmap(), MemoryMask::all());
    assert!(!MemoryMask::mmap().contains(MemoryMask::unmap()));
    assert!(FileMask::all().contains(&(FileMask::open() | FileMask::rename())));
}

#[test]
fn everything_contains_every_mask() {
    let singles = [
        FileMask::open(),
        FileMask::close(),
        FileMask::read(),
        FileMask::write(),
        FileMask::delete(),
        FileMask::rename(),
    ];
    for a in singles {
        for b in singles {
            let both = a | b;
            assert!(FileMask::all().contains(&both));
            assert!(both.contains(&a) && both.contains(&b));
            assert_eq!(a.contains(&b), a | b == a);
            assert_eq!(a.contains(&b) && b.contains(&a), a == b);
        }
    }
    assert!(!FileMask::open().contains(&(FileMask::open() | FileMask::read())));
    assert!(NetworkMask::all().contains(&(NetworkMask::bind() | NetworkMask::accept())));
    assert!(ProtocolMask::all().contains(&ProtocolMask::udp()));
    assert!(ProcessMask::all().contains(&ProcessMask::all()));
    assert!(MemoryMask::all().contains(MemoryMask::unmap()));
}

#[test]
fn masks_grow() {
    let mut mask = FileMask::open();
    mask |= FileMask::close();
    assert!(mask.contains(&FileMask::open()) && mask.contains(&FileMask::close()));
    assert!(!mask.contains(&FileMask::read()));
    let mut types = FileTypeFilter::file_reg();
    types |= FileTypeFilter::file_lnk();
    assert_eq!(types.0.mode, 33);
    let mut memory = MemoryMask::mmap();
    memory |= MemoryMask::unmap();
    assert_eq!(memory, MemoryMask::all());
    let mut process = ProcessMask::start();
    process |= ProcessMask::start();
    assert_eq!(process, ProcessMask::start());
    let mut network = NetworkMask::bind();
    network |= NetworkMask::listen();
    assert!(network.contains(&NetworkMask::listen()));
    let mut protocol = ProtocolMask::udp();
    protocol |= ProtocolMask::tcp();
    assert_eq!(protocol, ProtocolMask::all());
}

#[test]
fn file_mask_texts() {
    assert_eq!(FileMask::open().to_string(), "OPEN");
    assert_eq!(FileMask::close().to_string(), "CLOSE");
    assert_eq!(FileMask::read().to_string(), "READ");
    assert_eq!(FileMask::write().to_string(), "WRITE");
    assert_eq!(FileMask::delete().to_string(), "DELETE");
    assert_eq!(FileMask::rename().to_string(), "RENAME");
    assert_eq!((FileMask::open() | FileMask::read()).to_string(), "FileMask(5)");
    assert_eq!(FileMask::all().to_string(), "FileMask(63)");
}

#[test]
fn file_filters() {
    let default = FileFilter::default();
    assert_eq!(default.event_type, FileMask::all());
    assert_eq!(default.file_mode, FileTypeFilter::file_reg());
    assert_eq!(default.filter, FilterKey::Any);
    assert_eq!(FileTypeFilter::default(), FileTypeFilter::file_reg());
    assert_eq!(FileFilter::all().file_mode, FileTypeFilter::all());
    assert_eq!(FileTypeFilter::all().0.mode, 127);
    for (filter, mask) in [
        (FileFilter::open(), FileMask::open()),
        (FileFilter::close(), FileMask::close()),
        (FileFilter::read(), FileMask::read()),
        (FileFilter::write(), FileMask::write()),
        (FileFilter::delete(), FileMask::delete()),
        (FileFilter::rename(), FileMask::rename()),
    ] {
        assert_eq!(filter.event_type, mask);
        assert_eq!(filter.filter, FilterKey::Any);
    }
    let left = FileFilter {
        filter: FilterKey::Uid(1000),
        file_mode: FileTypeFilter::file_chr(),
        event_type: FileMask::open(),
    };
    let both = left.clone() | FileFilter::read();
    assert_eq!(both.filter, FilterKey::Uid(1000));
    assert_eq!(both.file_mode, FileTypeFilter::file_chr());
    assert_eq!(both.event_type, FileMask::open() | FileMask::read());
}

#[test]
fn file_type_filters() {
    for (filter, bit) in [
        (FileTypeFilter::file_reg(), 1),
        (FileTypeFilter::file_dir(), 2),
        (FileTypeFilter::file_chr(), 4),
        (FileTypeFilter::file_blk(), 8),
        (FileTypeFilter::file_fifo(), 16),
        (FileTypeFilter::file_lnk(), 32),
        (FileTypeFilter::file_sock(), 64),
    ] {
        assert_eq!(FileModeFilter::from(filter), FileModeFilter { mode: bit });
    }
    let both = FileTypeFilter::file_blk() | FileTypeFilter::file_fifo();
    assert_eq!(FileModeFilter::from(both).mode, 24);
}

#[test]
fn network_filters() {
    let default = NetworkFilter::default();
    assert_eq!(default.protocol_mask, ProtocolMask::all());
    assert_eq!(default.event_mask, NetworkMask::all());
    assert_eq!(default.filter, FilterKey::Any);
    assert_eq!(NetworkFilter::tcp().protocol_mask, ProtocolMask::tcp());
    assert_eq!(NetworkFilter::tcp().event_mask, NetworkMask::all());
    assert_eq!(NetworkFilter::udp().protocol_mask, ProtocolMask::udp());
    let left = NetworkFilter {
        filter: FilterKey::Tid(5),
        event_mask: NetworkMask::accept(),
        ..NetworkFilter::tcp()
    };
    let right = NetworkFilter { event_mask: NetworkMask::close(), ..NetworkFilter::udp() };
    let both = left | right;
    assert_eq!(both.filter, FilterKey::Tid(5));
    assert_eq!(both.protocol_mask, ProtocolMask::tcp());
    assert_eq!(both.event_mask, NetworkMask::accept() | NetworkMask::close());
}

#[test]
fn process_and_memory_filters() {
    assert_eq!(ProcessFilter::default().mask, ProcessMask::all());
    assert_eq!(ProcessFilter::default().filter, FilterKey::Any);
    assert_eq!(ProcessFilter::start().mask, ProcessMask::start());
    assert_eq!(ProcessFilter::fork().mask, ProcessMask::fork());
    assert_eq!(ProcessFilter::exit().mask, ProcessMask::exit());
    assert_eq!(ProcessFilter::all().mask, ProcessMask::all());
    assert_eq!(MemoryFilter::default().mask, MemoryMask::all());
    assert_eq!(MemoryFilter::mmap().mask, MemoryMask::mmap());
    assert_eq!(MemoryFilter::unmap().mask, MemoryMask::unmap());
    assert_eq!(MemoryFilter::all().filter, FilterKey::Any);
    assert_eq!(FilterKey::default(), FilterKey::Any);
}
