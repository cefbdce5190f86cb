use crossfire_oneshot::backoff::BackoffConfig;
use crossfire_oneshot::error::{RecvError, RecvTimeoutError, TryRecvError};
use crossfire_oneshot::handle::{oneshot, RxOneshot, TxOneshot};
use crossfire_oneshot::oneshot::Polled;
use crossfire_oneshot::waiting::{
    recv_result, recv_timeout_result, timer_polled, BlockingRecv, RecvStep,
};
use std::future::{pending, poll_fn, ready, Future};
use std::sync::atomic::{AtomicUsize, Ordering};
use std::sync::{Arc, Condvar, Mutex};
use std::task::{Poll, Wake, Waker};
use std::time::{Duration, Instant};
use tokio::runtime::{Builder, Runtime};
use tokio::time::sleep;

const ROUND: usize = 1000;

const CONFIG: BackoffConfig = BackoffConfig { spin_limit: 6, limit: 6 };

struct CountWaker(AtomicUsize);

impl Wake for CountWaker {
    fn wake(self: Arc<Self>) {
        self.0.fetch_add(1, Ordering::SeqCst);
    }

    fn wake_by_ref(self: &Arc<Self>) {
        self.0.fetch_add(1, Ordering::SeqCst);
    }
}

fn count_waker() -> (Arc<CountWaker>, Waker) {
    let w = Arc::new(CountWaker(AtomicUsize::new(0)));
    (w.clone(), Waker::from(w))
}

fn woken(w: &CountWaker) -> usize {
    w.0.load(Ordering::SeqCst)
}

/// A place where a thread waits to be woken.
struct Parker {
    woken: Mutex<bool>,
    bell: Condvar,
}

impl Wake for Parker {
    fn wake(self: Arc<Self>) {
        *self.woken.lock().unwrap() = true;
        self.bell.notify_all();
    }
}

impl Parker {
    fn new() -> Arc<Parker> {
        Arc::new(Parker { woken: Mutex::new(false), bell: Condvar::new() })
    }

    /// Waits to be woken, for the time that is left.
    fn park(&self, left: Duration) {
        let guard = self.woken.lock().unwrap();
        let (mut guard, _) = self.bell.wait_timeout_while(guard, left, |w| !*w).unwrap();
        *guard = false;
    }
}

fn pause(ms: u64) {
    Parker::new().park(Duration::from_millis(ms));
}

/// Waits as long as it takes, or until the time is up.
fn wait<T>(mut waiting: BlockingRecv<T>, timeout: Option<Duration>) -> Result<T, bool> {
    let deadline = timeout.map(|t| Instant::now() + t);
    let parker = Parker::new();
    let waker = Waker::from(parker.clone());
    loop {
        match waiting.step(&waker) {
            RecvStep::Done(r) => return r,
            RecvStep::Again | RecvStep::Yield => {}
            RecvStep::Park => match deadline {
                None => parker.park(Duration::from_secs(15)),
                Some(d) => {
                    let now = Instant::now();
                    if now >= d {
                        return waiting.expire();
                    }
                    parker.park(d - now);
                }
            },
        }
    }
}

fn recv<T>(rx: RxOneshot<T>) -> Result<T, RecvError> {
    recv_result(wait(rx.recv(CONFIG), None))
}

fn recv_timeout<T>(rx: RxOneshot<T>, timeout: Duration) -> Result<T, RecvTimeoutError> {
    recv_timeout_result(wait(rx.recv_timeout(CONFIG), Some(timeout)))
}

fn to_poll<R>(r: Polled<R>) -> Poll<R> {
    match r {
        Polled::Ready(r) => Poll::Ready(r),
        Polled::Pending => Poll::Pending,
    }
}

async fn recv_async<T>(mut rx: RxOneshot<T>) -> Result<T, RecvError> {
    let r = poll_fn(|ctx| to_poll(rx.poll(ctx.waker()))).await;
    rx.close();
    r
}

async fn recv_with_timer<T, F: Future>(rx: RxOneshot<T>, timer: F) -> Result<T, RecvTimeoutError> {
    let mut fut = rx.recv_async_with_timer(Box::pin(timer));
    let r = poll_fn(|ctx| match to_poll(fut.poll_rx(ctx.waker())) {
        Poll::Ready(r) => Poll::Ready(r),
        Poll::Pending => {
            let elapsed = fut.sleep.as_mut().poll(ctx).is_ready();
            to_poll(timer_polled(elapsed))
        }
    })
    .await;
    fut.rx.close();
    r
}

async fn closed<T>(tx: &mut TxOneshot<T>) {
    poll_fn(|ctx| to_poll(tx.poll_closed(ctx.waker()))).await
}

fn is_ready<R>(r: Polled<R>) -> bool {
    matches!(r, Polled::Ready(_))
}

fn is_pending<R>(r: Polled<R>) -> bool {
    matches!(r, Polled::Pending)
}

fn runtime() -> Runtime {
    Builder::new_multi_thread().worker_threads(2).enable_time().build().unwrap()
}

/// An item that counts how often it is dropped.
struct SmallMsg(Arc<AtomicUsize>);

impl Drop for SmallMsg {
    fn drop(&mut self) {
        self.0.fetch_add(1, Ordering::SeqCst);
    }
}

#[test]
fn test_oneshot_blocking_basic() {
    let (tx, mut rx) = oneshot();
    assert_eq!(rx.try_recv().unwrap_err(), TryRecvError::Empty);
    assert_eq!(rx.is_empty(), true);
    tx.send(42);
    assert_eq!(rx.is_empty(), false);
    assert_eq!(recv(rx), Ok(42));

    let (tx, mut rx) = oneshot();
    assert_eq!(rx.try_recv().unwrap_err(), TryRecvError::Empty);
    tx.send(41);
    assert_eq!(rx.try_recv(), Ok(41));
    assert_eq!(rx.try_recv().unwrap_err(), TryRecvError::Disconnected);
    assert_eq!(rx.is_empty(), true);
    assert_eq!(recv(rx).unwrap_err(), RecvError);
}

#[test]
fn test_oneshot_blocking_drop_tx() {
    let (tx, rx) = oneshot::<i32>();
    tx.close();
    assert_eq!(recv(rx), Err(RecvError));

    let rt = runtime();
    let (tx, rx) = oneshot::<i32>();
    let th = rt.spawn_blocking(move || {
        // Should be wake up on sender drop
        assert_eq!(recv(rx), Err(RecvError));
    });
    pause(120);
    tx.close();
    rt.block_on(th).expect("join");
}

#[test]
fn test_oneshot_blocking_drop_rx() {
    let (tx, rx) = oneshot::<i32>();
    assert!(!tx.is_disconnected());
    rx.close();
    assert!(tx.is_disconnected());
    tx.send(42);
}

#[test]
fn test_oneshot_blocking_leak() {
    // The item is dropped if it is not received
    let drops = Arc::new(AtomicUsize::new(0));
    let (tx, rx) = oneshot::<SmallMsg>();
    tx.send(SmallMsg(drops.clone()));
    assert_eq!(drops.load(Ordering::SeqCst), 0);
    rx.close();
    assert_eq!(drops.load(Ordering::SeqCst), 1);
}

#[test]
fn test_oneshot_blocking_drop_after_recv() {
    // The item is the receiver's once it was received
    let drops = Arc::new(AtomicUsize::new(0));
    {
        let (tx, rx) = oneshot::<SmallMsg>();
        tx.send(SmallMsg(drops.clone()));
        let msg = recv(rx).ok().unwrap();
        assert_eq!(drops.load(Ordering::SeqCst), 0);
        drop(msg);
        assert_eq!(drops.load(Ordering::SeqCst), 1);
    }
    assert_eq!(drops.load(Ordering::SeqCst), 1);
}

#[test]
fn test_oneshot_async_basic() {
    runtime().block_on(async move {
        let (tx, mut rx) = oneshot();
        assert_eq!(rx.try_recv().unwrap_err(), TryRecvError::Empty);
        assert_eq!(rx.is_empty(), true);
        tx.send(42);
        assert_eq!(rx.is_empty(), false);
        assert_eq!(recv_async(rx).await, Ok(42));
        let (tx, mut rx) = oneshot();
        assert_eq!(rx.try_recv().unwrap_err(), TryRecvError::Empty);
        tx.send(41);
        assert_eq!(rx.try_recv(), Ok(41));
        assert_eq!(rx.try_recv().unwrap_err(), TryRecvError::Disconnected);
        assert_eq!(recv_async(rx).await.unwrap_err(), RecvError);
    });
}

#[test]
fn test_oneshot_async_drop_tx() {
    runtime().block_on(async move {
        let (tx, rx) = oneshot::<i32>();
        tx.close();
        assert_eq!(recv_async(rx).await, Err(RecvError));
        let (tx, rx) = oneshot::<i32>();
        let th = tokio::spawn(async move {
            // Should be wake up on sender drop
            assert_eq!(recv_async(rx).await, Err(RecvError));
        });
        sleep(Duration::from_millis(120)).await;
        tx.close();
        th.await.unwrap();
    });
}

#[test]
fn test_oneshot_async_pressure() {
    let count = 100usize;
    runtime().block_on(async move {
        let mut tasks = Vec::new();
        for i in 0..count {
            tasks.push(tokio::spawn(async move {
                let (tx, rx) = oneshot();
                tx.send(i);
                assert_eq!(recv_async(rx).await, Ok(i));
            }));
        }
        for t in tasks {
            t.await.unwrap();
        }
    });
}

#[test]
fn test_oneshot_blocking_batch() {
    let rt = runtime();
    let mut txs = Vec::with_capacity(ROUND);
    let mut rxs = Vec::with_capacity(ROUND);
    for _i in 0..ROUND {
        let (tx, rx) = oneshot();
        txs.push(tx);
        rxs.push(rx);
    }
    let th = rt.spawn_blocking(move || {
        for (i, tx) in txs.into_iter().enumerate() {
            tx.send(i);
        }
    });
    for (i, rx) in rxs.into_iter().enumerate() {
        assert_eq!(recv(rx), Ok(i));
    }
    rt.block_on(th).unwrap();
}

#[test]
fn test_oneshot_async_batch() {
    runtime().block_on(async move {
        let mut txs = Vec::with_capacity(ROUND);
        let mut rxs = Vec::with_capacity(ROUND);
        for _i in 0..ROUND {
            let (tx, rx) = oneshot();
            txs.push(tx);
            rxs.push(rx);
        }
        let th = tokio::spawn(async move {
            for (i, tx) in txs.into_iter().enumerate() {
                tx.send(i);
            }
        });
        for (i, rx) in rxs.into_iter().enumerate() {
            assert_eq!(recv_async(rx).await, Ok(i));
        }
        th.await.unwrap();
    });
}

#[test]
fn test_oneshot_blocking_concurrent() {
    let rt = runtime();
    let count = 50usize;
    let mut th_s = Vec::new();
    for i in 0..count {
        let (tx, rx) = oneshot();
        th_s.push(rt.spawn_blocking(move || {
            tx.send(i);
        }));
        th_s.push(rt.spawn_blocking(move || {
            assert_eq!(recv(rx), Ok(i));
        }));
    }
    for th in th_s {
        rt.block_on(th).unwrap();
    }
}

#[test]
fn test_oneshot_async_concurrent() {
    let count = 100usize;
    runtime().block_on(async move {
        let mut tasks = Vec::new();
        for i in 0..count {
            let (tx, rx) = oneshot();
            tasks.push(tokio::spawn(async move {
                tx.send(i);
            }));
            tasks.push(tokio::spawn(async move {
                assert_eq!(recv_async(rx).await, Ok(i));
            }));
        }
        for t in tasks {
            t.await.unwrap();
        }
    });
}

#[test]
fn test_oneshot_blocking_with_sleep() {
    let rt = runtime();
    let count = 50usize;
    let mut th_s = Vec::new();
    for i in 0..(count as u64) {
        let (tx, rx) = oneshot();
        // Spawn a thread that sends after a short delay
        th_s.push(rt.spawn_blocking(move || {
            pause(i % 10); // Vary the delay
            tx.send(i);
        }));
        th_s.push(rt.spawn_blocking(move || {
            // Wait for the value
            assert_eq!(recv(rx), Ok(i));
        }));
    }
    for th in th_s {
        rt.block_on(th).unwrap();
    }
}

#[test]
fn test_oneshot_async_with_sleep() {
    let count = 50usize;
    runtime().block_on(async move {
        let mut tasks = Vec::new();
        for i in 0..count {
            tasks.push(tokio::spawn(async move {
                let (tx, rx) = oneshot();
                let th = tokio::spawn(async move {
                    sleep(Duration::from_millis((i % 10) as u64)).await;
                    tx.send(i);
                });

                // Wait for the value
                assert_eq!(recv_async(rx).await, Ok(i));
                th.await.unwrap();
            }));
        }
        for t in tasks {
            t.await.unwrap();
        }
    });
}

#[test]
fn test_oneshot_async_batch_with_interval() {
    let batch_size = 30;
    runtime().block_on(async move {
        let mut tasks = Vec::new();

        // Create a batch of oneshots
        for i in 0..batch_size {
            tasks.push(tokio::spawn(async move {
                let (tx, rx) = oneshot();
                let th = tokio::spawn(async move {
                    // Sleep for different durations based on index
                    sleep(Duration::from_millis((i * 2) as u64)).await;
                    tx.send(i);
                });

                // Wait for the value
                assert_eq!(recv_async(rx).await, Ok(i));
                th.await.unwrap();
            }));
        }
        for t in tasks {
            t.await.unwrap();
        }
    });
}

#[test]
fn test_oneshot_blocking_timeout_fail() {
    let (_tx, rx) = oneshot::<i32>();
    let start = Instant::now();
    let res = recv_timeout(rx, Duration::from_millis(100));
    assert_eq!(res, Err(RecvTimeoutError::Timeout));
    assert!(start.elapsed() >= Duration::from_millis(100));
}

#[test]
fn test_oneshot_blocking_timeout_success() {
    let rt = runtime();
    let (tx, rx) = oneshot::<i32>();
    let th = rt.spawn_blocking(move || {
        pause(50);
        tx.send(42);
    });
    let res = recv_timeout(rx, Duration::from_secs(1));
    assert_eq!(res, Ok(42));
    rt.block_on(th).unwrap();
}

#[test]
fn test_oneshot_blocking_timeout_disconnected() {
    let rt = runtime();
    let (tx, rx) = oneshot::<i32>();
    let th = rt.spawn_blocking(move || {
        pause(50);
        tx.close();
    });
    let res = recv_timeout(rx, Duration::from_millis(200));
    rt.block_on(th).unwrap();
    assert!(res.is_err());
    // might be timeout or disconnected
}

#[test]
fn test_oneshot_async_timeout_fail() {
    runtime().block_on(async move {
        let (_tx, rx) = oneshot::<i32>();
        let start = Instant::now();
        let res = recv_with_timer(rx, sleep(Duration::from_millis(100))).await;
        assert_eq!(res, Err(RecvTimeoutError::Timeout));
        assert!(start.elapsed() >= Duration::from_millis(100));
    });
}

#[test]
fn test_oneshot_async_timeout_disconnected() {
    runtime().block_on(async move {
        let (tx, rx) = oneshot::<i32>();
        let th = tokio::task::spawn_blocking(move || {
            pause(50);
            tx.close();
        });
        let res = recv_with_timer(rx, sleep(Duration::from_secs(1))).await;
        th.await.unwrap();
        assert_eq!(res, Err(RecvTimeoutError::Disconnected));
    });
}

#[test]
fn test_oneshot_async_timeout_success() {
    runtime().block_on(async move {
        let (tx, rx) = oneshot::<i32>();
        let th = tokio::spawn(async move {
            sleep(Duration::from_millis(50)).await;
            tx.send(42);
        });
        let res = recv_with_timer(rx, sleep(Duration::from_secs(2))).await;
        assert_eq!(res, Ok(42));
        th.await.unwrap();
    });
}

#[test]
fn test_oneshot_poll_closed() {
    let (counter, waker) = count_waker();
    let item = Arc::new(());

    // rx dropped before polling
    let (mut tx, rx) = oneshot::<Arc<()>>();
    rx.close();
    assert!(is_ready(tx.poll_closed(&waker)));
    tx.send(item.clone());
    assert_eq!(Arc::strong_count(&item), 1);

    // rx dropped while registered, then tx sends
    let (mut tx, rx) = oneshot::<Arc<()>>();
    assert!(is_pending(tx.poll_closed(&waker)));
    assert!(is_pending(tx.poll_closed(&waker)));
    assert_eq!(woken(&counter), 0);
    rx.close();
    assert_eq!(woken(&counter), 1);
    assert!(is_ready(tx.poll_closed(&waker)));
    tx.send(item.clone());
    assert_eq!(Arc::strong_count(&item), 1);

    // Only the latest waker is woken
    let (counter2, waker2) = count_waker();
    let (mut tx, rx) = oneshot::<Arc<()>>();
    assert!(is_pending(tx.poll_closed(&waker)));
    assert!(is_pending(tx.poll_closed(&waker2)));
    rx.close();
    assert_eq!(woken(&counter), 1);
    assert_eq!(woken(&counter2), 1);
    tx.close();

    // Registered, then sends normally
    let (mut tx, rx) = oneshot::<Arc<()>>();
    assert!(is_pending(tx.poll_closed(&waker)));
    tx.send(item.clone());
    assert_eq!(Arc::strong_count(&item), 2);
    drop(recv(rx).expect("recv"));
    assert_eq!(Arc::strong_count(&item), 1);

    // Registered, then drops
    let (mut tx, rx) = oneshot::<Arc<()>>();
    assert!(is_pending(tx.poll_closed(&waker)));
    tx.close();
    assert_eq!(recv(rx), Err(RecvError));
    assert_eq!(woken(&counter), 1);

    // rx gives up on timeout
    let (mut tx, rx) = oneshot::<Arc<()>>();
    assert!(is_pending(tx.poll_closed(&waker)));
    assert_eq!(recv_timeout(rx, Duration::from_millis(1)), Err(RecvTimeoutError::Timeout));
    assert_eq!(woken(&counter), 2);
    assert!(is_ready(tx.poll_closed(&waker)));
    tx.send(item.clone());
    assert_eq!(Arc::strong_count(&item), 1);

    // rx future polled then cancelled
    let (mut tx, mut rx) = oneshot::<Arc<()>>();
    assert!(is_pending(tx.poll_closed(&waker)));
    assert!(is_pending(rx.poll(&waker)));
    rx.close();
    assert_eq!(woken(&counter), 3);
    assert!(is_ready(tx.poll_closed(&waker)));
    tx.close();
}

#[test]
fn test_oneshot_closed_async() {
    runtime().block_on(async move {
        let (mut tx, rx) = oneshot::<usize>();
        let th = tokio::spawn(async move {
            sleep(Duration::from_millis(10)).await;
            rx.close();
        });
        closed(&mut tx).await;
        assert!(tx.is_disconnected());
        th.await.unwrap();
    });
}

#[test]
fn test_oneshot_poll_closed_concurrent() {
    // The last of tx and rx releases the channel, while rx may be waking tx's waker.
    let rt = runtime();
    let item = Arc::new(());
    for i in 0..ROUND {
        let (mut tx, rx) = oneshot::<Arc<()>>();
        let value = item.clone();
        let th = rt.spawn_blocking(move || {
            let (_counter, waker) = count_waker();
            let _ = tx.poll_closed(&waker);
            match i % 3 {
                0 => {
                    tx.send(value);
                }
                1 => {
                    tx.close();
                }
                _ => {
                    // Alternate wakers, so tx replaces its waker while rx may be closing
                    let (_counter2, waker2) = count_waker();
                    loop {
                        if is_ready(tx.poll_closed(&waker2)) || is_ready(tx.poll_closed(&waker)) {
                            break;
                        }
                        std::hint::spin_loop();
                    }
                    tx.send(value);
                }
            }
        });
        match i % 4 {
            0 => {
                rx.close();
            }
            1 => drop(recv_timeout(rx, Duration::from_micros(1))),
            2 => {
                let (_counter, waker) = count_waker();
                let mut rx = rx;
                let _ = rx.poll(&waker);
                rx.close();
            }
            _ => {
                if i % 3 == 2 {
                    rx.close();
                } else {
                    drop(recv(rx));
                }
            }
        }
        rt.block_on(th).expect("join");
    }
    assert_eq!(Arc::strong_count(&item), 1);
}

#[test]
fn a_waiting_receiver_is_woken_once() {
    let (counter, waker) = count_waker();
    let (counter2, waker2) = count_waker();
    let (tx, mut rx) = oneshot::<u8>();
    assert!(is_pending(rx.poll(&waker)));
    assert!(is_pending(rx.poll(&waker)));
    assert!(is_pending(rx.poll(&waker2)));
    assert!(rx.is_empty());
    tx.send(7);
    assert_eq!(woken(&counter), 0);
    assert_eq!(woken(&counter2), 1);
    assert!(!rx.is_empty());
    assert!(matches!(rx.poll(&waker), Polled::Ready(Ok(7))));
    assert!(matches!(rx.poll(&waker), Polled::Ready(Err(RecvError))));
    assert!(rx.is_empty());
    assert_eq!(woken(&counter), 0);
    assert_eq!(woken(&counter2), 1);
}

#[test]
fn a_leaving_sender_wakes_the_receiver() {
    let (counter, waker) = count_waker();
    let (tx, mut rx) = oneshot::<u8>();
    assert!(is_pending(rx.poll(&waker)));
    tx.close();
    assert_eq!(woken(&counter), 1);
    assert!(rx.is_empty());
    assert!(matches!(rx.poll(&waker), Polled::Ready(Err(RecvError))));
}

#[test]
fn an_attempt_does_not_end_a_wait() {
    let (counter, waker) = count_waker();
    let (tx, mut rx) = oneshot::<u8>();
    assert!(is_pending(rx.poll(&waker)));
    assert_eq!(rx.try_recv(), Err(TryRecvError::Empty));
    tx.send(9);
    assert_eq!(woken(&counter), 1);
    assert_eq!(rx.try_recv(), Ok(9));
    assert_eq!(rx.try_recv(), Err(TryRecvError::Disconnected));
}

#[test]
fn a_released_channel_holds_nothing() {
    let (counter, waker) = count_waker();
    let item = Arc::new(());
    // The receiver waits and leaves, then the item is sent.
    let (tx, mut rx) = oneshot::<Arc<()>>();
    assert!(is_pending(rx.poll(&waker)));
    rx.close();
    tx.send(item.clone());
    assert_eq!(Arc::strong_count(&item), 1);
    assert_eq!(woken(&counter), 0);
    assert_eq!(Arc::strong_count(&counter), 2);
    // The item is sent to a receiver that waits and then leaves without it.
    let (tx, mut rx) = oneshot::<Arc<()>>();
    assert!(is_pending(rx.poll(&waker)));
    tx.send(item.clone());
    assert_eq!(woken(&counter), 1);
    assert_eq!(Arc::strong_count(&item), 2);
    rx.close();
    assert_eq!(Arc::strong_count(&item), 1);
    assert_eq!(Arc::strong_count(&counter), 2);
}

#[test]
fn a_wait_spins_yields_and_parks() {
    let (counter, waker) = count_waker();
    let (tx, rx) = oneshot::<u8>();
    let mut waiting = rx.recv(BackoffConfig { spin_limit: 1, limit: 2 });
    assert!(matches!(waiting.step(&waker), RecvStep::Again));
    assert!(matches!(waiting.step(&waker), RecvStep::Yield));
    assert!(matches!(waiting.step(&waker), RecvStep::Park));
    assert!(matches!(waiting.step(&waker), RecvStep::Park));
    tx.send(3);
    assert_eq!(woken(&counter), 1);
    assert!(matches!(waiting.step(&waker), RecvStep::Done(Ok(3))));
    assert!(matches!(waiting.step(&waker), RecvStep::Done(Err(false))));
}

#[test]
fn a_wait_is_over_at_once_where_the_sender_is_finished() {
    let (counter, waker) = count_waker();
    let (tx, rx) = oneshot::<u8>();
    tx.send(3);
    assert!(matches!(rx.recv(CONFIG).step(&waker), RecvStep::Done(Ok(3))));
    let (tx, rx) = oneshot::<u8>();
    tx.close();
    assert!(matches!(rx.recv(CONFIG).step(&waker), RecvStep::Done(Err(false))));
    assert_eq!(woken(&counter), 0);
}

#[test]
fn a_wait_that_expires_gives_way_to_the_item() {
    let (_counter, waker) = count_waker();
    let config = BackoffConfig { spin_limit: 0, limit: 0 };
    // Nothing was sent: the time is up.
    let (mut tx, rx) = oneshot::<u8>();
    let mut waiting = rx.recv_timeout(config);
    assert!(matches!(waiting.step(&waker), RecvStep::Park));
    assert_eq!(waiting.expire(), Err(true));
    assert!(tx.is_disconnected());
    assert!(is_ready(tx.poll_closed(&waker)));
    // The item came before the wait was given up.
    let (tx, rx) = oneshot::<u8>();
    let mut waiting = rx.recv_timeout(config);
    assert!(matches!(waiting.step(&waker), RecvStep::Park));
    tx.send(5);
    assert_eq!(waiting.expire(), Ok(5));
    // So did the news that there is none.
    let (tx, rx) = oneshot::<u8>();
    let mut waiting = rx.recv_timeout(config);
    assert!(matches!(waiting.step(&waker), RecvStep::Park));
    tx.close();
    assert_eq!(waiting.expire(), Err(false));
}

#[test]
fn results_of_waits() {
    assert_eq!(recv_result(Ok(1)), Ok(1));
    assert_eq!(recv_result::<u8>(Err(false)), Err(RecvError));
    assert_eq!(recv_timeout_result(Ok(1)), Ok(1));
    assert_eq!(recv_timeout_result::<u8>(Err(true)), Err(RecvTimeoutError::Timeout));
    assert_eq!(recv_timeout_result::<u8>(Err(false)), Err(RecvTimeoutError::Disconnected));
    assert!(matches!(timer_polled::<u8>(true), Polled::Ready(Err(RecvTimeoutError::Timeout))));
    assert!(matches!(timer_polled::<u8>(false), Polled::Pending));
}

#[test]
fn the_item_comes_before_the_timer() {
    runtime().block_on(async move {
        let (tx, rx) = oneshot::<u8>();
        tx.send(4);
        assert_eq!(recv_with_timer(rx, ready(())).await, Ok(4));
        let (tx, rx) = oneshot::<u8>();
        tx.close();
        assert_eq!(
            recv_with_timer(rx, pending::<()>()).await,
            Err(RecvTimeoutError::Disconnected)
        );
        let (mut tx, rx) = oneshot::<u8>();
        assert_eq!(recv_with_timer(rx, ready(())).await, Err(RecvTimeoutError::Timeout));
        closed(&mut tx).await;
        assert!(tx.is_disconnected());
    });
}

#[test]
fn timers_are_kept_as_given() {
    let (_counter, waker) = count_waker();
    let (tx, rx) = oneshot::<u8>();
    let mut fut = rx.recv_async_with_timer(17);
    assert!(is_pending(fut.poll_rx(&waker)));
    assert_eq!(fut.sleep, 17);
    tx.send(1);
    assert!(matches!(fut.poll_rx(&waker), Polled::Ready(Ok(1))));
    assert!(matches!(
        fut.poll_rx(&waker),
        Polled::Ready(Err(RecvTimeoutError::Disconnected))
    ));
}

#[test]
fn a_wait_takes_over_from_a_poll() {
    let (counter, waker) = count_waker();
    // The sender is alive: the time is up.
    let (tx, mut rx) = oneshot::<i32>();
    assert!(is_pending(rx.poll(&waker)));
    assert_eq!(recv_timeout(rx, Duration::from_millis(1)), Err(RecvTimeoutError::Timeout));
    assert!(tx.is_disconnected());
    tx.close();
    // The item comes while the thread waits: its own waker is woken, and not that of the poll.
    let (counter2, waker2) = count_waker();
    let (tx, mut rx) = oneshot::<i32>();
    assert!(is_pending(rx.poll(&waker)));
    let mut waiting = rx.recv(BackoffConfig { spin_limit: 0, limit: 0 });
    assert!(matches!(waiting.step(&waker2), RecvStep::Park));
    tx.send(6);
    assert_eq!(woken(&counter), 0);
    assert_eq!(woken(&counter2), 1);
    assert!(matches!(waiting.step(&waker2), RecvStep::Done(Ok(6))));
    // The item came before the wait began.
    let (tx, mut rx) = oneshot::<i32>();
    assert!(is_pending(rx.poll(&waker)));
    tx.send(7);
    assert_eq!(woken(&counter), 1);
    assert_eq!(recv(rx), Ok(7));
}

#[test]
fn looks_tell_what_is_there() {
    let (tx, mut rx) = oneshot::<u8>();
    assert!(!tx.see_disconnected().0);
    let (empty, record) = rx.see_empty();
    assert!(empty && record.is_some());
    tx.send(1);
    assert!(!rx.see_empty().0);
    assert_eq!(rx.try_recv(), Ok(1));
    let (empty, record) = rx.see_empty();
    assert!(empty && record.is_none());
    let (tx, rx) = oneshot::<u8>();
    rx.close();
    assert!(tx.see_disconnected().0);
}

#[test]
fn channels_are_paired() {
    let (tx1, mut rx1) = oneshot::<u8>();
    let (tx2, mut rx2) = oneshot::<u8>();
    tx2.send(2);
    assert_eq!(rx1.try_recv(), Err(TryRecvError::Empty));
    assert!(rx1.is_empty() && !tx1.is_disconnected());
    tx1.send(1);
    assert_eq!(rx2.try_recv(), Ok(2));
    assert_eq!(rx1.try_recv(), Ok(1));
}
