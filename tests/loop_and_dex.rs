use price_alerts::dex::{DexError, DexMonitor};
use price_alerts::scheduler::{next_step, LoopAction, LoopEvent, Phase};

#[test]
fn whale_and_liquidity_replies() {
    assert_eq!(
        DexMonitor::execute("WHALE", 42),
        Ok("🐋 Whale Alert!\n\nRecent large transactions:\n• 1000 ICP moved on Sonic DEX\n• 500 ETH swapped on Uniswap\n• 10 BTC transferred to exchange\n\nLast updated: <t:42:R>".to_string())
    );
    assert_eq!(
        DexMonitor::execute("liquidity", 7),
        Ok("💧 Liquidity Update\n\nCurrent DEX Liquidity:\n• Sonic DEX: 1M ICP\n• Uniswap: 500K ETH\n• PancakeSwap: 100K BNB\n\nLast updated: <t:7:R>".to_string())
    );
    assert_eq!(DexMonitor::execute("swap", 7), Err(DexError::InvalidAction));
}

#[test]
fn passes_never_overlap() {
    assert_eq!(next_step(Phase::Idle, LoopEvent::TimerFired), (Phase::Evaluating, LoopAction::StartPass));
    assert_eq!(next_step(Phase::Evaluating, LoopEvent::TimerFired), (Phase::Evaluating, LoopAction::Wait));
    assert_eq!(next_step(Phase::Evaluating, LoopEvent::PassCompleted), (Phase::Idle, LoopAction::Wait));
}

#[test]
fn shutdown_lets_the_pass_finish() {
    assert_eq!(next_step(Phase::Evaluating, LoopEvent::ShutdownRequested), (Phase::Stopping, LoopAction::Wait));
    assert_eq!(next_step(Phase::Stopping, LoopEvent::TimerFired), (Phase::Stopping, LoopAction::Wait));
    assert_eq!(next_step(Phase::Stopping, LoopEvent::PassCompleted), (Phase::Stopped, LoopAction::Exit));
    assert_eq!(next_step(Phase::Idle, LoopEvent::ShutdownRequested), (Phase::Stopped, LoopAction::Exit));
    assert_eq!(next_step(Phase::Stopped, LoopEvent::TimerFired), (Phase::Stopped, LoopAction::Exit));
}
