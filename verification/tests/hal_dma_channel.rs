use bouffalo::hal::dma::channel::{
    check_cache_addr, dcache_clean_lines, lli_config, lli_link_head, lli_reload, ChannelRegisters,
};
use bouffalo::hal::dma::register::{LliControl, LliPool, LliTransfer};
use bouffalo::hal::dma::DmaAddr;

const SRC_INC: u32 = 1 << 26;
const CPLT: u32 = 1 << 31;

#[test]
fn lli_config_writes_chain() {
    let mut pool = vec![LliPool::new(); 4];
    lli_config(&mut pool, 0x6000_0000, 1, 2, 0x100, 0x200, 4064, 100, LliControl(SRC_INC | CPLT | 5));
    assert_eq!(pool[0], LliPool::new());
    assert_eq!(pool[1].src_addr, 0x100);
    assert_eq!(pool[1].dst_addr, 0x200);
    assert_eq!(pool[1].next_lli, 0x6000_0000 + 32 * 2);
    assert_eq!(pool[1].control, LliControl(SRC_INC | 4064));
    assert_eq!(pool[2].src_addr, 0x100 + 4064);
    assert_eq!(pool[2].dst_addr, 0x200);
    assert_eq!(pool[2].next_lli, 0);
    assert_eq!(pool[2].control, LliControl(SRC_INC | CPLT | 100));
    assert_eq!(pool[3], LliPool::new());
}

#[test]
fn lli_reload_counts_items() {
    let mut pool = vec![LliPool::new(); 8];
    let transfers = [
        LliTransfer { src_addr: 0x1000, dst_addr: 0x2000, nbytes: 10000 },
        LliTransfer { src_addr: 0x3000, dst_addr: 0x4000, nbytes: 4064 + 10 },
    ];
    let mut channel = regs(LliControl(SRC_INC));
    let r = lli_reload(&mut pool, 0x2000_0000, 8, &transfers, 2, &mut channel);
    // 10000 = 4064 + 4064 + 1872: three items; 4074 = 4064 + 10, and a tail
    // below 31 units is merged: one item of 4074.
    assert_eq!(r, 4);
    assert_eq!(pool[2].control.0 & 0xfff, 1872);
    assert_eq!(pool[2].next_lli, 0x2000_0000 + 32 * 3);
    assert_eq!(pool[3].src_addr, 0x3000);
    assert_eq!(pool[3].control.0 & 0xfff, 4074);
    assert_eq!(pool[3].next_lli, 0);
    // The channel registers now hold the first item.
    assert_eq!(channel.source_address, 0x1000);
    assert_eq!(channel.destination_address, 0x2000);
    assert_eq!(channel.linked_list_item, 0x2000_0000 + 32);
    assert_eq!(channel.control, pool[0].control);
    assert_eq!(channel.control.0 & 0xfff, 4064);
}

fn regs(control: LliControl) -> ChannelRegisters {
    ChannelRegisters { source_address: 7, destination_address: 8, linked_list_item: 9, control }
}

#[test]
fn lli_reload_without_transfers_leaves_registers() {
    let mut pool = vec![LliPool::new(); 2];
    let mut channel = regs(LliControl(SRC_INC));
    assert_eq!(lli_reload(&mut pool, 0x2000_0000, 8, &[], 0, &mut channel), 0);
    assert_eq!(channel, regs(LliControl(SRC_INC)));
}

#[test]
fn lli_reload_errors() {
    let mut pool = vec![LliPool::new(); 8];
    let odd = [LliTransfer { src_addr: 0, dst_addr: 0, nbytes: 3 }];
    let mut channel = regs(LliControl(1 << 18));
    assert_eq!(lli_reload(&mut pool, 0x2000_0000, 8, &odd, 1, &mut channel), -1);
    assert_eq!(channel, regs(LliControl(1 << 18)));
    let big = [LliTransfer { src_addr: 0, dst_addr: 0, nbytes: 9000 }];
    let mut channel = regs(LliControl(0));
    assert_eq!(lli_reload(&mut pool, 0x2000_0000, 2, &big, 1, &mut channel), -12);
    assert_eq!(channel, regs(LliControl(0)));
}

#[test]
fn lli_link_head_closes_ring() {
    let mut pool = vec![LliPool::new(); 3];
    pool[0].next_lli = 0x20;
    assert_eq!(lli_link_head(&mut pool, 0x6000_0000, 3), 0x20);
    assert_eq!(pool[2].next_lli, 0x6000_0000);
}

#[test]
fn cache_ranges() {
    assert!(check_cache_addr(0x2000_0000));
    assert!(check_cache_addr(0x60FF_FFFF));
    assert!(!check_cache_addr(0x2004_0000));
    assert!(!check_cache_addr(0x1000));
    assert_eq!(dcache_clean_lines(0x2000_0010, 0x30), vec![0x2000_0000, 0x2000_0020]);
    assert_eq!(dcache_clean_lines(0x2000_0000, 0), Vec::<usize>::new());
    assert_eq!(dcache_clean_lines(0x1000, 0x100), Vec::<usize>::new());
}

#[test]
fn dma_addresses() {
    assert_eq!(DmaAddr::Uart0Tx.addr(), 0x2000A088);
    assert_eq!(DmaAddr::AdcRx.addr(), 0x20002004);
    assert_eq!(DmaAddr::WoTx.addr(), 0x20000B04);
}
