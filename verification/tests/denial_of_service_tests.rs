use rust_smart_contracts_vulns::vulnerabilities::denial_of_service::{secure, vulnerable};

#[test]
fn test_secure_dos_prevention() {
    let mut auction = secure::Auction::new(100);

    // Place bids from multiple bidders
    for i in 1..50 {
        let bidder = [i as u8; 32];
        let amount = (i * 10) as u64;
        let _ = auction.place_bid(bidder, amount);
    }

    // Include the malicious bidder
    let malicious_bidder = [0xaa; 32];
    let _ = auction.place_bid(malicious_bidder, 2000);

    // The auction can end regardless of refund issues
    let result = auction.end_auction();
    assert!(result.is_ok());
    assert_eq!(auction.ended, true);

    // Process refunds in batches
    let refund_result = auction.process_refund_batch(10);
    assert!(refund_result.is_ok());

    // Even with a malicious bidder, other refunds can still be processed
    let _ = auction.claim_refund([5; 32]);
}

#[test]
fn vulnerable_auction_ends_while_the_failing_bidder_leads() {
    let mut auction = vulnerable::Auction::new();
    for i in 1..100 {
        let bidder = [i as u8; 32];
        let amount = (i * 10) as u64;
        let _ = auction.place_bid(bidder, amount);
    }
    // The bidder whose refund fails bids highest, so it is due no refund.
    let malicious_bidder = [0xaa; 32];
    let _ = auction.place_bid(malicious_bidder, 2000);
    assert_eq!(auction.bidders.len(), 100);
    assert_eq!(auction.bids.len(), 100);
    let result = auction.end_auction();
    assert!(result.is_ok());
    assert_eq!(auction.ended, true);
    assert_eq!(auction.end_auction().unwrap_err(), "Auction already ended");
}

#[test]
fn vulnerable_auction_is_stopped_by_one_failing_refund() {
    let mut auction = vulnerable::Auction::new();
    assert!(auction.place_bid([1u8; 32], 10).is_ok());
    assert!(auction.place_bid([0xaa; 32], 20).is_ok());
    assert_eq!(auction.place_bid([2u8; 32], 20).unwrap_err(), "Bid too low");
    assert!(auction.place_bid([2u8; 32], 30).is_ok());
    assert_eq!(auction.highest_bidder, Some([2u8; 32]));
    assert_eq!(auction.highest_bid, 30);
    assert_eq!(auction.bids, vec![(10, [1u8; 32]), (20, [0xaa; 32]), (30, [2u8; 32])]);
    let result = auction.end_auction();
    assert_eq!(result.unwrap_err(), "Refund failed");
    // The auction was marked as ended before the refunds started.
    assert_eq!(auction.ended, true);
    assert_eq!(auction.place_bid([3u8; 32], 40).unwrap_err(), "Auction already ended");
}

#[test]
fn secure_auction_limits_bidders_and_refunds_in_batches() {
    let mut auction = secure::Auction::new(3);
    assert_eq!(auction.process_refund_batch(1).unwrap_err(), "Auction not ended yet");
    assert_eq!(auction.claim_refund([1u8; 32]).unwrap_err(), "Auction not ended yet");
    assert!(auction.place_bid([1u8; 32], 10).is_ok());
    assert!(auction.place_bid([2u8; 32], 20).is_ok());
    assert_eq!(auction.place_bid([3u8; 32], 20).unwrap_err(), "Bid too low");
    assert!(auction.place_bid([3u8; 32], 30).is_ok());
    assert_eq!(
        auction.place_bid([4u8; 32], 40).unwrap_err(),
        "Maximum number of bidders reached"
    );
    // A known bidder can still raise its bid.
    assert!(auction.place_bid([1u8; 32], 40).is_ok());
    assert_eq!(auction.bidder_amounts.len(), 3);
    assert_eq!(*auction.bidder_amounts.get(&[1u8; 32]).unwrap(), 40);
    assert_eq!(auction.highest_bidder, Some([1u8; 32]));
    assert!(auction.end_auction().is_ok());
    assert_eq!(auction.end_auction().unwrap_err(), "Auction already ended");
    assert_eq!(auction.place_bid([1u8; 32], 50).unwrap_err(), "Auction already ended");
    assert_eq!(
        auction.claim_refund([1u8; 32]).unwrap_err(),
        "Highest bidder cannot claim refund"
    );
    assert_eq!(auction.claim_refund([9u8; 32]).unwrap_err(), "No bid found for this bidder");
    // One refund at a time, oldest bidder first, the highest bidder left out.
    assert_eq!(auction.process_refund_batch(1).unwrap(), 1);
    assert_eq!(auction.bidder_amounts.keys(), vec![[1u8; 32], [3u8; 32]]);
    assert!(auction.claim_refund([3u8; 32]).is_ok());
    assert_eq!(auction.bidder_amounts.keys(), vec![[1u8; 32]]);
    assert_eq!(auction.process_refund_batch(10).unwrap(), 0);
    assert_eq!(auction.bidder_amounts.len(), 1);
}

#[test]
fn secure_batch_goes_on_after_a_failing_refund() {
    let mut auction = secure::Auction::new(10);
    assert!(auction.place_bid([0xaa; 32], 10).is_ok());
    assert!(auction.place_bid([1u8; 32], 20).is_ok());
    assert!(auction.place_bid([2u8; 32], 30).is_ok());
    assert!(auction.end_auction().is_ok());
    assert_eq!(auction.process_refund_batch(5).unwrap(), 2);
    assert_eq!(auction.bidder_amounts.keys(), vec![[2u8; 32]]);
}
