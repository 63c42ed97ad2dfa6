use kaju::numeros::{passo_aleatorio, potencia_inteira};

#[test]
fn potencias_inteiras() {
    assert_eq!(potencia_inteira(2, 10), Some(1024));
    assert_eq!(potencia_inteira(2, 62), Some(1i64 << 62));
    assert_eq!(potencia_inteira(2, 63), None);
    assert_eq!(potencia_inteira(-2, 63), Some(i64::MIN));
    assert_eq!(potencia_inteira(-2, 64), None);
    assert_eq!(potencia_inteira(0, 0), Some(1));
    assert_eq!(potencia_inteira(0, 7), Some(0));
    assert_eq!(potencia_inteira(1, 4294967295), Some(1));
    assert_eq!(potencia_inteira(-1, 3), Some(-1));
    assert_eq!(potencia_inteira(-1, 4294967294), Some(1));
    assert_eq!(potencia_inteira(3, -1), None);
    assert_eq!(potencia_inteira(1, 4294967296), None);
    assert_eq!(potencia_inteira(10, 18), Some(1_000_000_000_000_000_000));
    assert_eq!(potencia_inteira(10, 19), None);
}

#[test]
fn gerador_avanca_e_nao_zera() {
    assert_eq!(passo_aleatorio(1), 1082269761);
    assert_eq!(passo_aleatorio(0), 0);
    let mut x: u64 = 0x9e3779b97f4a7c15;
    for _ in 0..1000 {
        x = passo_aleatorio(x);
        assert_ne!(x, 0);
    }
}
