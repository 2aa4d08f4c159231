//! The publisher path: encode, measure, send, and hand the transport's
//! answer back untouched. Encoding and the transport send are collaborators;
//! the decisions — what is sent, when nothing is sent, and that every send
//! is measured exactly once — are made and proved here.

use vstd::prelude::*;
use crate::errors::EncodeFault;
use crate::errors::Error;
use crate::errors::TransportFault;
use crate::metrics::HistogramFamily;
use crate::metrics::histogram_start_timer;
use crate::metrics::timer_observe_duration;
use crate::outcome::Effect;

verus! {

/// The transport's proof that a published message was accepted, in the
/// three shapes the broker protocol knows.
#[derive(Clone, Copy, PartialEq, Eq, Structural, Debug)]
pub enum Confirmation {
    Ack,
    Nack,
    NotRequested,
}

/// One send the runtime owes the transport: the destination, the encoded
/// payload, and the running duration measurement that `complete_publish`
/// closes once the transport has answered.
pub struct PublishRequest {
    pub exchange: String,
    pub routing_key: String,
    pub payload: Vec<u8>,
    pub timer: Option<prometheus::HistogramTimer>,
}

/// The publisher: the per-(exchange, routing key) duration histograms,
/// injected instead of living in process-wide state. The transport channel
/// itself stays with the runtime.
pub struct Publisher {
    pub duration: HistogramFamily,
}

impl Publisher {
    /// A publisher around the injected duration-histogram family.
    pub fn new(duration: HistogramFamily) -> (r: Publisher)
    {
        Publisher { duration }
    }

    /// The publish path, up to the transport call: takes the codec's answer
    /// for the value, and either refuses — returning the encode fault with
    /// nothing to send — or starts the duration measurement and yields the
    /// one send the runtime must perform.
    pub fn prepare_publish(
        &self,
        exchange: &str,
        routing_key: &str,
        encoded: Result<Vec<u8>, EncodeFault>,
    ) -> (r: Result<PublishRequest, Error>)
        ensures
            r is Ok <==> encoded is Ok,
            (match encoded {
                Result::Ok(payload) => (match r {
                    Result::Ok(req) => {
                        &&& req.exchange@ == exchange@
                        &&& req.routing_key@ == routing_key@
                        &&& req.payload == payload
                    },
                    Result::Err(_) => false,
                }),
                Result::Err(f) => r == Result::<PublishRequest, Error>::Err(
                    (Error::Bincode { message: f.message }),
                ),
            }),
    {
        match encoded {
            Result::Ok(payload) => {
                let labels: Vec<String> = vec![exchange.to_owned(), routing_key.to_owned()];
                let timer = match self.duration.child(&labels) {
                    Some(h) => Some(histogram_start_timer(&h)),
                    None => None,
                };
                Result::Ok(
                    PublishRequest {
                        exchange: exchange.to_owned(),
                        routing_key: routing_key.to_owned(),
                        payload,
                        timer,
                    },
                )
            },
            Result::Err(f) => Result::Err(Error::Bincode { message: f.message }),
        }
    }

    /// The raw publish path: identical but for the codec, which is skipped;
    /// the bytes are sent as given.
    pub fn prepare_publish_raw(&self, exchange: &str, routing_key: &str, msg: &Vec<u8>) -> (r:
        PublishRequest)
        ensures
            r.exchange@ == exchange@,
            r.routing_key@ == routing_key@,
            r.payload@ == msg@,
    {
        let labels: Vec<String> = vec![exchange.to_owned(), routing_key.to_owned()];
        let timer = match self.duration.child(&labels) {
            Some(h) => Some(histogram_start_timer(&h)),
            None => None,
        };
        PublishRequest {
            exchange: exchange.to_owned(),
            routing_key: routing_key.to_owned(),
            payload: msg.clone(),
            timer,
        }
    }
}

/// The publish path after the transport has answered: closes the duration
/// measurement — exactly one observation, on the success and on the error
/// path alike — and hands the transport's confirmation or error back
/// untouched, the error in the layer's own dress.
pub fn complete_publish(req: PublishRequest, transport: Result<Confirmation, TransportFault>) -> (r:
    (Vec<Effect>, Result<Confirmation, Error>))
    ensures
        r.0@ == seq![Effect::ObserveDuration],
        (match transport {
            Result::Ok(c) => r.1 == Result::<Confirmation, Error>::Ok(c),
            Result::Err(f) => r.1 == Result::<Confirmation, Error>::Err(
                (Error::Amqp { message: f.message }),
            ),
        }),
{
    let PublishRequest { exchange: _, routing_key: _, payload: _, timer } = req;
    match timer {
        Some(t) => timer_observe_duration(t),
        None => (),
    }
    let mut effects: Vec<Effect> = Vec::new();
    effects.push(Effect::ObserveDuration);
    let answer = match transport {
        Result::Ok(c) => Result::Ok(c),
        Result::Err(f) => Result::Err(Error::Amqp { message: f.message }),
    };
    proof {
        assert(effects@ =~= seq![Effect::ObserveDuration]);
    }
    (effects, answer)
}

} // verus!
